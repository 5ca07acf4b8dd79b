//! Option values, their builders, and their compilation into wire requests.

use vstd::prelude::*;
use crate::byte_sequence::ByteSequence;
use crate::namespace::view_of;

pub mod client;
pub mod compact;
pub mod delete;
pub mod get;
pub mod kv;
pub mod lease;
pub mod put;
pub mod txn;
pub mod watch;

verus! {

/// A value that may carry a namespace.
pub trait Namespaceable {
    /// The namespace the value carries, if any.
    spec fn spec_namespace(&self) -> Option<Seq<u8>>;

    /// The namespace, if one is set.
    fn namespace(&self) -> (r: Option<ByteSequence>)
        ensures
            view_of(r) == self.spec_namespace(),
    ;
}

/// A builder on which a namespace can be set.
pub trait NamespaceBuilder: Sized {
    /// The namespace set so far, if any.
    spec fn spec_namespace(&self) -> Option<Seq<u8>>;

    /// Sets the namespace where one is given; `None` leaves the builder as it
    /// is.
    fn namespace(self, namespace: Option<ByteSequence>) -> (r: Self)
        ensures
            r.spec_namespace() == if namespace is Some {
                view_of(namespace)
            } else {
                self.spec_namespace()
            },
    ;
}

} // verus!
