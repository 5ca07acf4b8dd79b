//! Key prefixing: how a logical key and a logical range end are rewritten
//! into the sub-keyspace of a namespace when a request is compiled.

use vstd::prelude::*;
use crate::byte_sequence::{spec_next, ByteSequence};

verus! {

/// The view of an optional byte sequence.
pub open spec fn view_of(o: Option<ByteSequence>) -> Option<Seq<u8>> {
    match o {
        Some(b) => Some(b@),
        None => None,
    }
}

/// Whether a range end asks for the fully open upper bound: the zero-length
/// sequence, which a successor computation yields when nothing lies above, or
/// the single NUL byte, the canonical bound of an all-keys read.
pub open spec fn is_open_bound(end: Seq<u8>) -> bool {
    end.len() == 0 || (end.len() == 1 && end[0] == 0u8)
}

/// The key that goes on the wire for the logical key `key`.
pub open spec fn namespaced_key(namespace: Option<Seq<u8>>, key: Seq<u8>) -> Seq<u8> {
    match namespace {
        Some(ns) => ns + key,
        None => key,
    }
}

/// The range end that goes on the wire for the logical range end `end`. Under
/// a namespace an open bound becomes the successor of the namespace, so that
/// the range stays inside the sub-keyspace; any other end is prefixed.
pub open spec fn namespaced_end(namespace: Option<Seq<u8>>, end: Seq<u8>) -> Seq<u8> {
    match namespace {
        Some(ns) => if is_open_bound(end) {
            spec_next(ns)
        } else {
            ns + end
        },
        None => end,
    }
}

/// The logical range end of a request: the successor of the key when the key
/// is meant as a prefix, whatever end key was given; else the end key given;
/// else none.
pub open spec fn effective_end(prefix: bool, key: Seq<u8>, end_key: Option<Seq<u8>>) -> Option<
    Seq<u8>,
> {
    if prefix {
        Some(spec_next(key))
    } else {
        end_key
    }
}

/// The range end that goes on the wire: empty where the request has no
/// logical range end, else that end rewritten for the namespace.
pub open spec fn wire_range_end(
    namespace: Option<Seq<u8>>,
    prefix: bool,
    key: Seq<u8>,
    end_key: Option<Seq<u8>>,
) -> Seq<u8> {
    match effective_end(prefix, key, end_key) {
        Some(end) => namespaced_end(namespace, end),
        None => Seq::<u8>::empty(),
    }
}

/// Rewrites a logical key for the wire.
pub fn apply_to_key(namespace: &Option<ByteSequence>, key: &ByteSequence) -> (r: ByteSequence)
    ensures
        r@ == namespaced_key(view_of(*namespace), key@),
{
    match namespace {
        Some(ns) => ns.append(key),
        None => key.clone(),
    }
}

/// Rewrites a logical range end for the wire.
pub fn apply_to_end(namespace: &Option<ByteSequence>, end: &ByteSequence) -> (r: ByteSequence)
    ensures
        r@ == namespaced_end(view_of(*namespace), end@),
{
    match namespace {
        Some(ns) => {
            let bytes = end.as_bytes();
            if bytes.len() == 0 || (bytes.len() == 1 && bytes[0] == 0) {
                ns.next()
            } else {
                ns.append(end)
            }
        },
        None => end.clone(),
    }
}

} // verus!
