//! Options of the key-value client.

use vstd::prelude::*;
use crate::byte_sequence::ByteSequence;
use crate::error::Error;
use crate::namespace::view_of;
use crate::options::{NamespaceBuilder, Namespaceable};
use tonic::transport::Channel;

verus! {

/// Options of the key-value client: the channel it sends on, and the
/// namespace its keys live under, if any.
#[derive(Debug)]
pub struct KVOptions {
    channel: Channel,
    namespace: Option<ByteSequence>,
}

/// Builder of `KVOptions`.
#[derive(Debug, Clone)]
pub struct KVOptionsBuilder {
    channel: Option<Channel>,
    namespace: Option<ByteSequence>,
}

impl Clone for KVOptions {
    fn clone(&self) -> (r: Self)
        ensures
            r.spec_namespace() == self.spec_namespace(),
    {
        KVOptions {
            channel: self.channel.clone(),
            namespace: match &self.namespace {
                Some(ns) => Some(ns.clone()),
                None => None,
            },
        }
    }
}

impl Namespaceable for KVOptions {
    closed spec fn spec_namespace(&self) -> Option<Seq<u8>> {
        view_of(self.namespace)
    }

    fn namespace(&self) -> (r: Option<ByteSequence>) {
        match &self.namespace {
            Some(ns) => Some(ns.clone()),
            None => None,
        }
    }
}

impl KVOptions {
    /// The channel held.
    pub closed spec fn spec_channel(&self) -> Channel {
        self.channel
    }

    /// The channel held.
    pub fn channel(self) -> (r: Channel)
        ensures
            r == self.spec_channel(),
    {
        self.channel
    }

    /// A builder with no channel and no namespace.
    pub fn builder() -> (r: KVOptionsBuilder)
        ensures
            r.spec_channel() is None,
            r.spec_namespace() is None,
    {
        KVOptionsBuilder { channel: None, namespace: None }
    }
}

impl NamespaceBuilder for KVOptionsBuilder {
    closed spec fn spec_namespace(&self) -> Option<Seq<u8>> {
        view_of(self.namespace)
    }

    fn namespace(self, namespace: Option<ByteSequence>) -> (r: Self)
        ensures
            r.spec_channel() == self.spec_channel(),
    {
        let mut b = self;
        if let Some(ns) = namespace {
            b.namespace = Some(ns);
        }
        b
    }
}

impl KVOptionsBuilder {
    /// The channel set so far.
    pub closed spec fn spec_channel(&self) -> Option<Channel> {
        self.channel
    }

    /// Sets the channel.
    pub fn channel(self, channel: Channel) -> (r: Self)
        ensures
            r.spec_channel() == Some(channel),
            r.spec_namespace() == self.spec_namespace(),
    {
        let mut b = self;
        b.channel = Some(channel);
        b
    }

    /// The options, or an illegal-argument error where no channel was set.
    pub fn build(self) -> (r: Result<KVOptions, Error>)
        ensures
            match self.spec_channel() {
                Some(channel) => r matches Ok(options) && options.spec_channel() == channel
                    && options.spec_namespace() == self.spec_namespace(),
                None => r matches Err(Error::IllegalArgument(reason)) && reason@
                    == "channel not specified"@,
            },
    {
        match self.channel {
            Some(channel) => Ok(KVOptions { channel, namespace: self.namespace }),
            None => Err(Error::IllegalArgument("channel not specified".to_owned())),
        }
    }
}

} // verus!
