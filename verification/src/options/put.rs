//! Options of a write.

use vstd::prelude::*;
use crate::byte_sequence::ByteSequence;
use crate::wire::{PutRequest, PutRequestView};

verus! {

/// Options of a write.
#[derive(Debug, Clone, Copy, PartialEq, Eq, Structural)]
pub struct PutOptions {
    /// The lease to attach the key to; 0 attaches none.
    pub lease: i64,
    /// Whether the pair that was overwritten is returned.
    pub prev_kv: bool,
    /// Whether the key keeps the lease it has.
    pub ignore_lease: bool,
    /// Whether the key keeps the value it has.
    pub ignore_value: bool,
}

impl Default for PutOptions {
    fn default() -> (r: Self)
        ensures
            r == PutOptions::unset(),
    {
        PutOptions { lease: 0, prev_kv: false, ignore_lease: false, ignore_value: false }
    }
}

impl PutOptions {
    /// No lease, every flag off.
    pub open spec fn unset() -> PutOptions {
        PutOptions { lease: 0, prev_kv: false, ignore_lease: false, ignore_value: false }
    }

    /// The write that these options compile to. Where the value is to be
    /// ignored none is sent.
    pub open spec fn spec_to_request(self, key: Seq<u8>, value: Seq<u8>) -> PutRequestView {
        PutRequestView {
            key,
            value: if self.ignore_value {
                Seq::<u8>::empty()
            } else {
                value
            },
            lease: self.lease,
            prev_kv: self.prev_kv,
            ignore_value: self.ignore_value,
            ignore_lease: self.ignore_lease,
        }
    }

    /// Compiles the options into the write of `value` under `key`.
    pub fn to_request(&self, key: ByteSequence, value: ByteSequence) -> (r: PutRequest)
        ensures
            r@ == self.spec_to_request(key@, value@),
    {
        PutRequest {
            key: key.into_vec(),
            value: if self.ignore_value {
                ByteSequence::empty().into_vec()
            } else {
                value.into_vec()
            },
            lease: self.lease,
            prev_kv: self.prev_kv,
            ignore_lease: self.ignore_lease,
            ignore_value: self.ignore_value,
        }
    }

    /// A builder with nothing set.
    pub fn builder() -> (r: PutOptionsBuilder)
        ensures
            r@ == PutOptions::unset(),
    {
        PutOptionsBuilder { lease: None, prev_kv: None, ignore_lease: None, ignore_value: None }
    }
}

/// Builder of `PutOptions`. Its view is the options that `build` would
/// return.
#[derive(Debug, Clone, Copy)]
pub struct PutOptionsBuilder {
    lease: Option<i64>,
    prev_kv: Option<bool>,
    ignore_lease: Option<bool>,
    ignore_value: Option<bool>,
}

impl View for PutOptionsBuilder {
    type V = PutOptions;

    closed spec fn view(&self) -> PutOptions {
        PutOptions {
            lease: self.lease.unwrap_or(0),
            prev_kv: self.prev_kv.unwrap_or(false),
            ignore_lease: self.ignore_lease.unwrap_or(false),
            ignore_value: self.ignore_value.unwrap_or(false),
        }
    }
}

impl Default for PutOptionsBuilder {
    fn default() -> (r: Self)
        ensures
            r@ == PutOptions::unset(),
    {
        PutOptions::builder()
    }
}

impl PutOptionsBuilder {
    /// Sets the lease to attach the key to.
    pub fn lease(self, lease: i64) -> (r: Self)
        ensures
            r@ == (PutOptions { lease, ..self@ }),
    {
        let mut b = self;
        b.lease = Some(lease);
        b
    }

    /// Sets whether the overwritten pair is returned.
    pub fn prev_kv(self, prev_kv: bool) -> (r: Self)
        ensures
            r@ == (PutOptions { prev_kv, ..self@ }),
    {
        let mut b = self;
        b.prev_kv = Some(prev_kv);
        b
    }

    /// Sets whether the key keeps the lease it has.
    pub fn ignore_lease(self, ignore_lease: bool) -> (r: Self)
        ensures
            r@ == (PutOptions { ignore_lease, ..self@ }),
    {
        let mut b = self;
        b.ignore_lease = Some(ignore_lease);
        b
    }

    /// Sets whether the key keeps the value it has.
    pub fn ignore_value(self, ignore_value: bool) -> (r: Self)
        ensures
            r@ == (PutOptions { ignore_value, ..self@ }),
    {
        let mut b = self;
        b.ignore_value = Some(ignore_value);
        b
    }

    /// The options, each field that was not set at its default.
    pub fn build(self) -> (r: PutOptions)
        ensures
            r == self@,
    {
        let unset = PutOptions::default();
        PutOptions {
            lease: self.lease.unwrap_or(unset.lease),
            prev_kv: self.prev_kv.unwrap_or(unset.prev_kv),
            ignore_lease: self.ignore_lease.unwrap_or(unset.ignore_lease),
            ignore_value: self.ignore_value.unwrap_or(unset.ignore_value),
        }
    }
}

/// Equal options, keys and values compile to equal writes.
pub proof fn lemma_to_request_deterministic(
    a: PutOptions,
    b: PutOptions,
    key_a: ByteSequence,
    key_b: ByteSequence,
    value_a: ByteSequence,
    value_b: ByteSequence,
)
    requires
        a == b,
        key_a@ == key_b@,
        value_a@ == value_b@,
    ensures
        a.spec_to_request(key_a@, value_a@) == b.spec_to_request(key_b@, value_b@),
{
}

} // verus!
