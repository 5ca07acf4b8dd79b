//! The range reads that the key-value client issues on its own account: the
//! read of one key and the read of all keys, both under the client's
//! namespace.

use vstd::prelude::*;
use crate::byte_sequence::{spec_next, ByteSequence};
use crate::namespace::view_of;
use crate::options::get::{GetOptions, GetOptionsView};
use crate::options::NamespaceBuilder;
use crate::order::{has_prefix, in_range, lemma_sub_keyspace_range};
use crate::wire::{RangeRequest, RangeRequestView};

verus! {

/// The canonical bound of an all-keys read: the single NUL byte, which is not
/// the zero-length sequence.
pub open spec fn spec_all_keys_bound() -> Seq<u8> {
    seq![0u8]
}

/// The read of the single key `key` by a client under `namespace`.
pub open spec fn spec_get_request(namespace: Option<Seq<u8>>, key: Seq<u8>) -> RangeRequestView {
    (GetOptionsView { namespace, ..GetOptionsView::unset() }).to_request(key)
}

/// The options an all-keys read goes out with: those given, or else none set,
/// with the all-keys bound as end key and under the client's namespace where
/// it has one.
pub open spec fn spec_all_keys_options(
    namespace: Option<Seq<u8>>,
    options: Option<GetOptionsView>,
) -> GetOptionsView {
    let base = match options {
        Some(o) => o,
        None => GetOptionsView::unset(),
    };
    GetOptionsView {
        end_key: Some(spec_all_keys_bound()),
        namespace: if namespace is Some {
            namespace
        } else {
            base.namespace
        },
        ..base
    }
}

/// The read of all keys by a client under `namespace`.
pub open spec fn spec_get_all_request(
    namespace: Option<Seq<u8>>,
    options: Option<GetOptionsView>,
) -> RangeRequestView {
    spec_all_keys_options(namespace, options).to_request(spec_all_keys_bound())
}

/// The view of optional options.
pub open spec fn options_view(options: Option<GetOptions>) -> Option<GetOptionsView> {
    match options {
        Some(o) => Some(o@),
        None => None,
    }
}

/// The canonical bound of an all-keys read.
pub fn all_keys_bound() -> (r: ByteSequence)
    ensures
        r@ == spec_all_keys_bound(),
{
    let mut bytes: Vec<u8> = Vec::new();
    bytes.push(0u8);
    assert(bytes@ =~= seq![0u8]);
    ByteSequence::from(bytes)
}

/// Compiles the read of the single key `key` by a client under `namespace`.
pub fn get_request(namespace: Option<ByteSequence>, key: &ByteSequence) -> (r: RangeRequest)
    ensures
        r@ == spec_get_request(view_of(namespace), key@),
{
    GetOptions::builder().namespace(namespace).build().to_request(key)
}

/// Compiles the read of all keys by a client under `namespace`. Options that
/// are given keep every field but the end key.
pub fn get_all_request(namespace: Option<ByteSequence>, options: Option<GetOptions>) -> (r:
    RangeRequest)
    ensures
        r@ == spec_get_all_request(view_of(namespace), options_view(options)),
{
    let options = match options {
        Some(options) => options.with_end_key(all_keys_bound()),
        None => GetOptions::builder().end_key(all_keys_bound()).build(),
    };
    options.with_namespace(namespace).to_request(&all_keys_bound())
}

/// A client under the namespace `ns` reads the key `key` as `ns ++ key`, and
/// reads all keys, unless its options ask for a prefix read, as the range from
/// `ns ++ [0]` up to the successor of `ns`: the whole of its sub-keyspace and
/// nothing beyond it.
pub proof fn lemma_namespace_transparency(
    ns: Seq<u8>,
    key: Seq<u8>,
    options: Option<GetOptionsView>,
)
    requires
        options matches Some(o) ==> !o.prefix,
    ensures
        spec_get_request(Some(ns), key).key == ns + key,
        spec_get_all_request(Some(ns), options).key == ns + seq![0u8],
        spec_get_all_request(Some(ns), options).range_end == spec_next(ns),
{
}

/// The read of all keys by a client under the namespace `ns` covers the keys
/// that start with `ns` and go on beyond it, and no others.
pub proof fn lemma_get_all_covers_sub_keyspace(ns: Seq<u8>, x: Seq<u8>)
    ensures
        in_range(
            x,
            spec_get_all_request(Some(ns), None).key,
            spec_get_all_request(Some(ns), None).range_end,
        ) <==> has_prefix(x, ns) && x.len() > ns.len(),
{
    lemma_sub_keyspace_range(ns, x);
}

/// Without a namespace keys and range ends go on the wire as they are: the
/// read of one key has no range end, and the read of all keys runs from the
/// all-keys bound to the all-keys bound.
pub proof fn lemma_no_namespace_is_identity(key: Seq<u8>)
    ensures
        spec_get_request(None, key) == RangeRequestView::of_key(key),
        spec_get_all_request(None, None).key == seq![0u8],
        spec_get_all_request(None, None).range_end == seq![0u8],
{
}

} // verus!
