//! Options of the client as a whole.

use vstd::prelude::*;
use crate::byte_sequence::ByteSequence;
use crate::namespace::view_of;
use crate::options::{NamespaceBuilder, Namespaceable};

verus! {

/// Options of the client: the addresses to reach the service at, and the
/// namespace its keys live under, if any.
#[derive(Debug, Clone)]
pub struct ClientOptions {
    endpoints: Vec<String>,
    namespace: Option<ByteSequence>,
}

/// What a `ClientOptions` holds.
pub struct ClientOptionsView {
    pub endpoints: Seq<Seq<char>>,
    pub namespace: Option<Seq<u8>>,
}

impl View for ClientOptions {
    type V = ClientOptionsView;

    closed spec fn view(&self) -> ClientOptionsView {
        ClientOptionsView {
            endpoints: self.endpoints.deep_view(),
            namespace: view_of(self.namespace),
        }
    }
}

/// Builder of `ClientOptions`. Its view is the view of the options that
/// `build` would return.
#[derive(Debug)]
pub struct ClientOptionsBuilder {
    endpoints: Vec<String>,
    namespace: Option<ByteSequence>,
}

impl View for ClientOptionsBuilder {
    type V = ClientOptionsView;

    closed spec fn view(&self) -> ClientOptionsView {
        ClientOptionsView {
            endpoints: self.endpoints.deep_view(),
            namespace: view_of(self.namespace),
        }
    }
}

impl Namespaceable for ClientOptions {
    open spec fn spec_namespace(&self) -> Option<Seq<u8>> {
        self@.namespace
    }

    fn namespace(&self) -> (r: Option<ByteSequence>) {
        match &self.namespace {
            Some(ns) => Some(ns.clone()),
            None => None,
        }
    }
}

impl ClientOptions {
    /// The addresses to reach the service at.
    pub fn endpoints(&self) -> (r: &Vec<String>)
        ensures
            r.deep_view() == self@.endpoints,
    {
        &self.endpoints
    }

    /// A builder with no address and no namespace.
    pub fn builder() -> (r: ClientOptionsBuilder)
        ensures
            r@ == (ClientOptionsView { endpoints: Seq::<Seq<char>>::empty(), namespace: None }),
    {
        let b = ClientOptionsBuilder { endpoints: Vec::new(), namespace: None };
        assert(b.endpoints.deep_view() =~= Seq::<Seq<char>>::empty());
        b
    }
}

impl NamespaceBuilder for ClientOptionsBuilder {
    open spec fn spec_namespace(&self) -> Option<Seq<u8>> {
        self@.namespace
    }

    fn namespace(self, namespace: Option<ByteSequence>) -> (r: Self)
        ensures
            r@ == (ClientOptionsView {
                namespace: if namespace is Some {
                    view_of(namespace)
                } else {
                    self@.namespace
                },
                ..self@
            }),
    {
        let mut b = self;
        if let Some(ns) = namespace {
            b.namespace = Some(ns);
        }
        b
    }
}

impl Default for ClientOptionsBuilder {
    fn default() -> (r: Self)
        ensures
            r@ == (ClientOptionsView { endpoints: Seq::<Seq<char>>::empty(), namespace: None }),
    {
        ClientOptions::builder()
    }
}

impl ClientOptionsBuilder {
    /// Replaces the addresses by `endpoints`.
    pub fn endpoints(self, endpoints: Vec<String>) -> (r: Self)
        ensures
            r@ == (ClientOptionsView { endpoints: endpoints.deep_view(), ..self@ }),
    {
        let mut b = self;
        b.endpoints = endpoints;
        b
    }

    /// The options as set.
    pub fn build(self) -> (r: ClientOptions)
        ensures
            r@ == self@,
    {
        ClientOptions { endpoints: self.endpoints, namespace: self.namespace }
    }
}

} // verus!
