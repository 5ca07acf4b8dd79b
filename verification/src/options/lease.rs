//! Options of the lease client and of a time-to-live query.

use vstd::prelude::*;
use crate::error::Error;
use crate::wire::LeaseTimeToLiveRequest;
use tonic::transport::Channel;

pub mod grant;

verus! {

/// Options of the lease client: the channel it sends on.
pub struct LeaseOptions {
    channel: Channel,
}

impl LeaseOptions {
    /// The channel held.
    pub closed spec fn spec_channel(&self) -> Channel {
        self.channel
    }

    /// A builder with no channel.
    pub fn builder() -> (r: LeaseOptionsBuilder)
        ensures
            r.spec_channel() is None,
    {
        LeaseOptionsBuilder { channel: None }
    }

    /// The channel held.
    pub fn channel(&self) -> (r: &Channel)
        ensures
            *r == self.spec_channel(),
    {
        &self.channel
    }
}

/// Builder of `LeaseOptions`.
pub struct LeaseOptionsBuilder {
    channel: Option<Channel>,
}

impl Default for LeaseOptionsBuilder {
    fn default() -> (r: Self)
        ensures
            r.spec_channel() is None,
    {
        LeaseOptionsBuilder { channel: None }
    }
}

impl LeaseOptionsBuilder {
    /// The channel set so far.
    pub closed spec fn spec_channel(&self) -> Option<Channel> {
        self.channel
    }

    /// Sets the channel.
    pub fn channel(self, channel: Channel) -> (r: Self)
        ensures
            r.spec_channel() == Some(channel),
    {
        let mut b = self;
        b.channel = Some(channel);
        b
    }

    /// The options, or an illegal-argument error where no channel was set.
    pub fn build(self) -> (r: Result<LeaseOptions, Error>)
        ensures
            match self.spec_channel() {
                Some(channel) => r matches Ok(options) && options.spec_channel() == channel,
                None => r matches Err(Error::IllegalArgument(reason)) && reason@
                    == "channel not specified"@,
            },
    {
        match self.channel {
            Some(channel) => Ok(LeaseOptions { channel }),
            None => Err(Error::IllegalArgument("channel not specified".to_owned())),
        }
    }
}

/// Options of a time-to-live query.
#[derive(Debug, Clone, Copy)]
pub struct TimeToLiveOptions {
    keys: bool,
}

impl Default for TimeToLiveOptions {
    fn default() -> (r: Self)
        ensures
            !r.spec_keys(),
    {
        TimeToLiveOptions { keys: false }
    }
}

impl TimeToLiveOptions {
    /// Whether the keys attached to the lease are asked for.
    pub closed spec fn spec_keys(&self) -> bool {
        self.keys
    }

    /// Compiles the options into the query for the lease `lease_id`.
    pub fn to_request(&self, lease_id: i64) -> (r: LeaseTimeToLiveRequest)
        ensures
            r == (LeaseTimeToLiveRequest { id: lease_id, keys: self.spec_keys() }),
    {
        LeaseTimeToLiveRequest { id: lease_id, keys: self.keys }
    }

    /// A builder with nothing set.
    pub fn builder() -> (r: TimeToLiveOptionsBuilder)
        ensures
            !r.spec_keys(),
    {
        TimeToLiveOptionsBuilder { keys: None }
    }

    /// Whether the keys attached to the lease are asked for.
    pub fn keys(&self) -> (r: bool)
        ensures
            r == self.spec_keys(),
    {
        self.keys
    }
}

/// Builder of `TimeToLiveOptions`.
#[derive(Debug, Clone, Copy)]
pub struct TimeToLiveOptionsBuilder {
    keys: Option<bool>,
}

impl Default for TimeToLiveOptionsBuilder {
    fn default() -> (r: Self)
        ensures
            !r.spec_keys(),
    {
        TimeToLiveOptions::builder()
    }
}

impl TimeToLiveOptionsBuilder {
    /// Whether the options that `build` would return ask for the keys.
    pub closed spec fn spec_keys(&self) -> bool {
        self.keys.unwrap_or(false)
    }

    /// Sets whether the keys attached to the lease are asked for.
    pub fn keys(self, keys: bool) -> (r: Self)
        ensures
            r.spec_keys() == keys,
    {
        let mut b = self;
        b.keys = Some(keys);
        b
    }

    /// The options; the keys are not asked for unless that was set.
    pub fn build(self) -> (r: TimeToLiveOptions)
        ensures
            r.spec_keys() == self.spec_keys(),
    {
        TimeToLiveOptions { keys: self.keys.unwrap_or(false) }
    }
}

} // verus!
