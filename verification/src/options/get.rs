//! Options of a range read.

use vstd::prelude::*;
use crate::byte_sequence::{lemma_next_of_concat, spec_next, ByteSequence};
use crate::namespace::{apply_to_end, apply_to_key, namespaced_key, view_of, wire_range_end};
use crate::options::{NamespaceBuilder, Namespaceable};
use crate::order::{has_prefix, in_range, lemma_prefix_range};
use crate::wire::{RangeRequest, RangeRequestView, SortOrder, SortTarget};

verus! {

/// Options of a range read. A numeric field left at 0 sets no bound; `prefix`
/// overrides `end_key`.
#[derive(Debug)]
pub struct GetOptions {
    pub end_key: Option<ByteSequence>,
    pub limit: i64,
    pub revision: i64,
    pub sort_order: SortOrder,
    pub sort_target: SortTarget,
    pub serializable: bool,
    pub keys_only: bool,
    pub count_only: bool,
    pub min_mod_revision: i64,
    pub max_mod_revision: i64,
    pub min_create_revision: i64,
    pub max_create_revision: i64,
    pub prefix: bool,
    namespace: Option<ByteSequence>,
}

/// What a `GetOptions` holds.
pub struct GetOptionsView {
    pub end_key: Option<Seq<u8>>,
    pub limit: i64,
    pub revision: i64,
    pub sort_order: SortOrder,
    pub sort_target: SortTarget,
    pub serializable: bool,
    pub keys_only: bool,
    pub count_only: bool,
    pub min_mod_revision: i64,
    pub max_mod_revision: i64,
    pub min_create_revision: i64,
    pub max_create_revision: i64,
    pub prefix: bool,
    pub namespace: Option<Seq<u8>>,
}

impl GetOptionsView {
    /// Every field unset: no end key, no bound, no namespace.
    pub open spec fn unset() -> GetOptionsView {
        GetOptionsView {
            end_key: None,
            limit: 0,
            revision: 0,
            sort_order: SortOrder::Unsorted,
            sort_target: SortTarget::Key,
            serializable: false,
            keys_only: false,
            count_only: false,
            min_mod_revision: 0,
            max_mod_revision: 0,
            min_create_revision: 0,
            max_create_revision: 0,
            prefix: false,
            namespace: None,
        }
    }

    /// The range read that these options compile to for the key `key`: key and
    /// range end rewritten for the namespace, every scalar field copied.
    pub open spec fn to_request(self, key: Seq<u8>) -> RangeRequestView {
        RangeRequestView {
            key: namespaced_key(self.namespace, key),
            range_end: wire_range_end(self.namespace, self.prefix, key, self.end_key),
            limit: self.limit,
            revision: self.revision,
            sort_order: self.sort_order.spec_code(),
            sort_target: self.sort_target.spec_code(),
            serializable: self.serializable,
            keys_only: self.keys_only,
            count_only: self.count_only,
            min_mod_revision: self.min_mod_revision,
            max_mod_revision: self.max_mod_revision,
            min_create_revision: self.min_create_revision,
            max_create_revision: self.max_create_revision,
        }
    }
}

impl View for GetOptions {
    type V = GetOptionsView;

    closed spec fn view(&self) -> GetOptionsView {
        GetOptionsView {
            end_key: view_of(self.end_key),
            limit: self.limit,
            revision: self.revision,
            sort_order: self.sort_order,
            sort_target: self.sort_target,
            serializable: self.serializable,
            keys_only: self.keys_only,
            count_only: self.count_only,
            min_mod_revision: self.min_mod_revision,
            max_mod_revision: self.max_mod_revision,
            min_create_revision: self.min_create_revision,
            max_create_revision: self.max_create_revision,
            prefix: self.prefix,
            namespace: view_of(self.namespace),
        }
    }
}

/// Builder of `GetOptions`. Its view is the view of the options that `build`
/// would return: a field not set yet stands at its default.
#[derive(Debug, Clone)]
pub struct GetOptionsBuilder {
    end_key: Option<ByteSequence>,
    limit: Option<i64>,
    revision: Option<i64>,
    sort_order: Option<SortOrder>,
    sort_target: Option<SortTarget>,
    serializable: Option<bool>,
    keys_only: Option<bool>,
    count_only: Option<bool>,
    min_mod_revision: Option<i64>,
    max_mod_revision: Option<i64>,
    min_create_revision: Option<i64>,
    max_create_revision: Option<i64>,
    prefix: Option<bool>,
    namespace: Option<ByteSequence>,
}

impl View for GetOptionsBuilder {
    type V = GetOptionsView;

    closed spec fn view(&self) -> GetOptionsView {
        GetOptionsView {
            end_key: view_of(self.end_key),
            limit: self.limit.unwrap_or(0),
            revision: self.revision.unwrap_or(0),
            sort_order: self.sort_order.unwrap_or(SortOrder::Unsorted),
            sort_target: self.sort_target.unwrap_or(SortTarget::Key),
            serializable: self.serializable.unwrap_or(false),
            keys_only: self.keys_only.unwrap_or(false),
            count_only: self.count_only.unwrap_or(false),
            min_mod_revision: self.min_mod_revision.unwrap_or(0),
            max_mod_revision: self.max_mod_revision.unwrap_or(0),
            min_create_revision: self.min_create_revision.unwrap_or(0),
            max_create_revision: self.max_create_revision.unwrap_or(0),
            prefix: self.prefix.unwrap_or(false),
            namespace: view_of(self.namespace),
        }
    }
}

impl Clone for GetOptions {
    fn clone(&self) -> (r: Self)
        ensures
            r@ == self@,
    {
        GetOptions {
            end_key: match &self.end_key {
                Some(k) => Some(k.clone()),
                None => None,
            },
            limit: self.limit,
            revision: self.revision,
            sort_order: self.sort_order,
            sort_target: self.sort_target,
            serializable: self.serializable,
            keys_only: self.keys_only,
            count_only: self.count_only,
            min_mod_revision: self.min_mod_revision,
            max_mod_revision: self.max_mod_revision,
            min_create_revision: self.min_create_revision,
            max_create_revision: self.max_create_revision,
            prefix: self.prefix,
            namespace: match &self.namespace {
                Some(k) => Some(k.clone()),
                None => None,
            },
        }
    }
}

impl GetOptions {
    fn new() -> (r: Self)
        ensures
            r@ == GetOptionsView::unset(),
    {
        GetOptions {
            end_key: None,
            limit: 0,
            revision: 0,
            sort_order: SortOrder::Unsorted,
            sort_target: SortTarget::Key,
            serializable: false,
            keys_only: false,
            count_only: false,
            min_mod_revision: 0,
            max_mod_revision: 0,
            min_create_revision: 0,
            max_create_revision: 0,
            prefix: false,
            namespace: None,
        }
    }

    /// A builder with nothing set.
    pub fn builder() -> (r: GetOptionsBuilder)
        ensures
            r@ == GetOptionsView::unset(),
    {
        GetOptionsBuilder {
            end_key: None,
            limit: None,
            revision: None,
            sort_order: None,
            sort_target: None,
            serializable: None,
            keys_only: None,
            count_only: None,
            min_mod_revision: None,
            max_mod_revision: None,
            min_create_revision: None,
            max_create_revision: None,
            prefix: None,
            namespace: None,
        }
    }

    /// Options with nothing set.
    pub fn default() -> (r: Self)
        ensures
            r@ == GetOptionsView::unset(),
    {
        Self::new()
    }

    /// The same options with the end key `end_key`.
    pub fn with_end_key(self, end_key: ByteSequence) -> (r: Self)
        ensures
            r@ == (GetOptionsView { end_key: Some(end_key@), ..self@ }),
    {
        let mut options = self;
        options.end_key = Some(end_key);
        options
    }

    /// The same options under the namespace `namespace`, where one is given;
    /// `None` leaves them as they are.
    pub fn with_namespace(self, namespace: Option<ByteSequence>) -> (r: Self)
        ensures
            r@ == (GetOptionsView {
                namespace: if namespace is Some {
                    view_of(namespace)
                } else {
                    self@.namespace
                },
                ..self@
            }),
    {
        let mut options = self;
        if let Some(ns) = namespace {
            options.namespace = Some(ns);
        }
        options
    }

    /// Compiles the options into the range read of the key `key`.
    pub fn to_request(self, key: &ByteSequence) -> (r: RangeRequest)
        ensures
            r@ == self@.to_request(key@),
    {
        let wire_key = apply_to_key(&self.namespace, key);
        let end = if self.prefix {
            Some(key.next())
        } else {
            self.end_key
        };
        let wire_end = match end {
            Some(end) => apply_to_end(&self.namespace, &end),
            None => ByteSequence::empty(),
        };
        RangeRequest {
            key: wire_key.into_vec(),
            range_end: wire_end.into_vec(),
            limit: self.limit,
            revision: self.revision,
            sort_order: self.sort_order.code(),
            sort_target: self.sort_target.code(),
            serializable: self.serializable,
            keys_only: self.keys_only,
            count_only: self.count_only,
            min_mod_revision: self.min_mod_revision,
            max_mod_revision: self.max_mod_revision,
            min_create_revision: self.min_create_revision,
            max_create_revision: self.max_create_revision,
        }
    }
}

impl Namespaceable for GetOptions {
    open spec fn spec_namespace(&self) -> Option<Seq<u8>> {
        self@.namespace
    }

    fn namespace(&self) -> (r: Option<ByteSequence>) {
        match &self.namespace {
            Some(ns) => Some(ns.clone()),
            None => None,
        }
    }
}

impl Default for GetOptionsBuilder {
    fn default() -> (r: Self)
        ensures
            r@ == GetOptionsView::unset(),
    {
        GetOptions::builder()
    }
}

impl GetOptionsBuilder {
    /// Sets the end key of the range.
    pub fn end_key(self, end_key: ByteSequence) -> (r: Self)
        ensures
            r@ == (GetOptionsView { end_key: Some(end_key@), ..self@ }),
    {
        let mut b = self;
        b.end_key = Some(end_key);
        b
    }

    /// Sets the largest number of keys to return.
    pub fn limit(self, limit: i64) -> (r: Self)
        ensures
            r@ == (GetOptionsView { limit, ..self@ }),
    {
        let mut b = self;
        b.limit = Some(limit);
        b
    }

    /// Sets the revision to read at.
    pub fn revision(self, revision: i64) -> (r: Self)
        ensures
            r@ == (GetOptionsView { revision, ..self@ }),
    {
        let mut b = self;
        b.revision = Some(revision);
        b
    }

    /// Sets the sort order.
    pub fn sort_order(self, sort_order: SortOrder) -> (r: Self)
        ensures
            r@ == (GetOptionsView { sort_order, ..self@ }),
    {
        let mut b = self;
        b.sort_order = Some(sort_order);
        b
    }

    /// Sets the field to sort by.
    pub fn sort_target(self, sort_target: SortTarget) -> (r: Self)
        ensures
            r@ == (GetOptionsView { sort_target, ..self@ }),
    {
        let mut b = self;
        b.sort_target = Some(sort_target);
        b
    }

    /// Sets whether the read may be served by one member alone.
    pub fn serializable(self, serializable: bool) -> (r: Self)
        ensures
            r@ == (GetOptionsView { serializable, ..self@ }),
    {
        let mut b = self;
        b.serializable = Some(serializable);
        b
    }

    /// Sets whether only keys are returned.
    pub fn keys_only(self, keys_only: bool) -> (r: Self)
        ensures
            r@ == (GetOptionsView { keys_only, ..self@ }),
    {
        let mut b = self;
        b.keys_only = Some(keys_only);
        b
    }

    /// Sets whether only the number of keys is returned.
    pub fn count_only(self, count_only: bool) -> (r: Self)
        ensures
            r@ == (GetOptionsView { count_only, ..self@ }),
    {
        let mut b = self;
        b.count_only = Some(count_only);
        b
    }

    /// Sets the lowest modification revision to return.
    pub fn min_mod_revision(self, min_mod_revision: i64) -> (r: Self)
        ensures
            r@ == (GetOptionsView { min_mod_revision, ..self@ }),
    {
        let mut b = self;
        b.min_mod_revision = Some(min_mod_revision);
        b
    }

    /// Sets the highest modification revision to return.
    pub fn max_mod_revision(self, max_mod_revision: i64) -> (r: Self)
        ensures
            r@ == (GetOptionsView { max_mod_revision, ..self@ }),
    {
        let mut b = self;
        b.max_mod_revision = Some(max_mod_revision);
        b
    }

    /// Sets the lowest creation revision to return.
    pub fn min_create_revision(self, min_create_revision: i64) -> (r: Self)
        ensures
            r@ == (GetOptionsView { min_create_revision, ..self@ }),
    {
        let mut b = self;
        b.min_create_revision = Some(min_create_revision);
        b
    }

    /// Sets the highest creation revision to return.
    pub fn max_create_revision(self, max_create_revision: i64) -> (r: Self)
        ensures
            r@ == (GetOptionsView { max_create_revision, ..self@ }),
    {
        let mut b = self;
        b.max_create_revision = Some(max_create_revision);
        b
    }

    /// Sets whether the key is meant as a prefix.
    pub fn prefix(self, prefix: bool) -> (r: Self)
        ensures
            r@ == (GetOptionsView { prefix, ..self@ }),
    {
        let mut b = self;
        b.prefix = Some(prefix);
        b
    }

    /// The options, each field that was not set at its default.
    pub fn build(self) -> (r: GetOptions)
        ensures
            r@ == self@,
    {
        let unset = GetOptions::new();
        GetOptions {
            end_key: self.end_key,
            limit: self.limit.unwrap_or(unset.limit),
            revision: self.revision.unwrap_or(unset.revision),
            sort_order: self.sort_order.unwrap_or(unset.sort_order),
            sort_target: self.sort_target.unwrap_or(unset.sort_target),
            serializable: self.serializable.unwrap_or(unset.serializable),
            keys_only: self.keys_only.unwrap_or(unset.keys_only),
            count_only: self.count_only.unwrap_or(unset.count_only),
            min_mod_revision: self.min_mod_revision.unwrap_or(unset.min_mod_revision),
            max_mod_revision: self.max_mod_revision.unwrap_or(unset.max_mod_revision),
            min_create_revision: self.min_create_revision.unwrap_or(unset.min_create_revision),
            max_create_revision: self.max_create_revision.unwrap_or(unset.max_create_revision),
            prefix: self.prefix.unwrap_or(unset.prefix),
            namespace: self.namespace,
        }
    }
}

impl NamespaceBuilder for GetOptionsBuilder {
    open spec fn spec_namespace(&self) -> Option<Seq<u8>> {
        self@.namespace
    }

    fn namespace(self, namespace: Option<ByteSequence>) -> (r: Self)
        ensures
            r@ == (GetOptionsView {
                namespace: if namespace is Some {
                    view_of(namespace)
                } else {
                    self@.namespace
                },
                ..self@
            }),
    {
        let mut b = self;
        if let Some(ns) = namespace {
            b.namespace = Some(ns);
        }
        b
    }
}

/// A prefix read of a key compiles to the very request that the same options
/// compile to with the prefix flag off and the successor of the key as
/// explicit end key.
pub proof fn lemma_prefix_is_explicit_successor(options: GetOptionsView, key: Seq<u8>)
    ensures
        (GetOptionsView { prefix: true, ..options }).to_request(key) == (GetOptionsView {
            prefix: false,
            end_key: Some(spec_next(key)),
            ..options
        }).to_request(key),
{
}

/// Under a namespace, the range end of a prefix read is the successor of the
/// key as it goes on the wire; without one, the successor of the key.
pub proof fn lemma_prefix_end_is_successor_of_wire_key(options: GetOptionsView, key: Seq<u8>)
    requires
        options.prefix,
    ensures
        options.to_request(key).range_end == spec_next(options.to_request(key).key),
{
    if let Some(ns) = options.namespace {
        lemma_next_of_concat(ns, key);
        if spec_next(key).len() > 0 {
            crate::byte_sequence::lemma_next_ends_above_zero(key);
            if crate::byte_sequence::all_max(key) {
                crate::byte_sequence::lemma_next_of_all_max(key);
            }
        } else {
            crate::byte_sequence::lemma_next_empty_only_for_all_max(key);
        }
    }
}

/// A prefix read covers the keys that start with its key as it goes on the
/// wire, and no others.
pub proof fn lemma_prefix_read_covers_prefix(options: GetOptionsView, key: Seq<u8>, x: Seq<u8>)
    requires
        options.prefix,
    ensures
        in_range(x, options.to_request(key).key, options.to_request(key).range_end) <==> has_prefix(
            x,
            options.to_request(key).key,
        ),
{
    lemma_prefix_end_is_successor_of_wire_key(options, key);
    lemma_prefix_range(options.to_request(key).key, x);
}

/// Equal options and equal keys compile to equal requests.
pub proof fn lemma_to_request_deterministic(
    a: GetOptions,
    b: GetOptions,
    key_a: ByteSequence,
    key_b: ByteSequence,
)
    requires
        a@ == b@,
        key_a@ == key_b@,
    ensures
        a@.to_request(key_a@) == b@.to_request(key_b@),
{
}

} // verus!
