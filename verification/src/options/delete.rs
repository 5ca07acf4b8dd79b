//! Options of a delete.

use vstd::prelude::*;
use crate::byte_sequence::{spec_next, ByteSequence};
use crate::order::{has_prefix, in_range, lemma_prefix_range};
use crate::wire::{DeleteRangeRequest, DeleteRangeRequestView};

verus! {

/// Options of a delete.
#[derive(Debug, Clone, Copy, PartialEq, Eq, Structural)]
pub struct DeleteOptions {
    /// Whether the key is meant as a prefix.
    pub prefix: bool,
    /// Whether the deleted pairs are returned.
    pub prev_kv: bool,
}

impl Default for DeleteOptions {
    fn default() -> (r: Self)
        ensures
            r == DeleteOptions::unset(),
    {
        DeleteOptions { prefix: false, prev_kv: false }
    }
}

impl DeleteOptions {
    /// Both flags off.
    pub open spec fn unset() -> DeleteOptions {
        DeleteOptions { prefix: false, prev_kv: false }
    }

    /// The delete that these options compile to: of the one key, or of every
    /// key that starts with it.
    pub open spec fn spec_to_request(self, key: Seq<u8>) -> DeleteRangeRequestView {
        DeleteRangeRequestView {
            key,
            range_end: if self.prefix {
                spec_next(key)
            } else {
                Seq::<u8>::empty()
            },
            prev_kv: self.prev_kv,
        }
    }

    /// A builder with nothing set.
    pub fn builder() -> (r: DeleteOptionsBuilder)
        ensures
            r@ == DeleteOptions::unset(),
    {
        DeleteOptionsBuilder { prefix: None, prev_kv: None }
    }

    /// Compiles the options into the delete of `key`.
    pub fn to_request(&self, key: &ByteSequence) -> (r: DeleteRangeRequest)
        ensures
            r@ == self.spec_to_request(key@),
    {
        let mut request = DeleteRangeRequest {
            key: key.to_vec(),
            range_end: Vec::new(),
            prev_kv: false,
        };
        if self.prefix {
            request.range_end = key.next().into_vec();
        }
        request.prev_kv = self.prev_kv;
        request
    }
}

/// Builder of `DeleteOptions`. Its view is the options that `build` would
/// return.
#[derive(Debug, Clone, Copy)]
pub struct DeleteOptionsBuilder {
    prefix: Option<bool>,
    prev_kv: Option<bool>,
}

impl View for DeleteOptionsBuilder {
    type V = DeleteOptions;

    closed spec fn view(&self) -> DeleteOptions {
        DeleteOptions {
            prefix: self.prefix.unwrap_or(false),
            prev_kv: self.prev_kv.unwrap_or(false),
        }
    }
}

impl Default for DeleteOptionsBuilder {
    fn default() -> (r: Self)
        ensures
            r@ == DeleteOptions::unset(),
    {
        DeleteOptions::builder()
    }
}

impl DeleteOptionsBuilder {
    /// Sets whether the key is meant as a prefix.
    pub fn prefix(self, prefix: bool) -> (r: Self)
        ensures
            r@ == (DeleteOptions { prefix, ..self@ }),
    {
        let mut b = self;
        b.prefix = Some(prefix);
        b
    }

    /// Sets whether the deleted pairs are returned.
    pub fn prev_kv(self, prev_kv: bool) -> (r: Self)
        ensures
            r@ == (DeleteOptions { prev_kv, ..self@ }),
    {
        let mut b = self;
        b.prev_kv = Some(prev_kv);
        b
    }

    /// The options, each field that was not set at its default.
    pub fn build(self) -> (r: DeleteOptions)
        ensures
            r == self@,
    {
        let mut options = DeleteOptions::default();
        if let Some(prefix) = self.prefix {
            options.prefix = prefix;
        }
        if let Some(prev_kv) = self.prev_kv {
            options.prev_kv = prev_kv;
        }
        options
    }
}

/// Equal options and keys compile to equal deletes, and a prefix delete ends
/// at the successor of its key.
pub proof fn lemma_to_request_deterministic(
    a: DeleteOptions,
    b: DeleteOptions,
    key_a: ByteSequence,
    key_b: ByteSequence,
)
    requires
        a == b,
        key_a@ == key_b@,
    ensures
        a.spec_to_request(key_a@) == b.spec_to_request(key_b@),
        a.prefix ==> a.spec_to_request(key_a@).range_end == spec_next(key_a@),
{
}

/// A prefix delete covers the keys that start with its key, and no others.
pub proof fn lemma_prefix_delete_covers_prefix(options: DeleteOptions, key: Seq<u8>, x: Seq<u8>)
    requires
        options.prefix,
    ensures
        in_range(x, key, options.spec_to_request(key).range_end) <==> has_prefix(x, key),
{
    lemma_prefix_range(key, x);
}

} // verus!
