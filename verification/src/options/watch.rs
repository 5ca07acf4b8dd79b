//! Options of the watch client and the control frames of a watch.

use vstd::prelude::*;
use crate::byte_sequence::ByteSequence;
use crate::error::Error;
use crate::namespace::view_of;
use crate::wire::{
    RequestUnion, RequestUnionView, WatchCancelRequest, WatchCreateRequest,
    WatchCreateRequestView, WatchProgressRequest, WatchRequest, WatchRequestView,
};
use tonic::transport::Channel;

verus! {

/// Options of the watch client: the channel it sends on.
#[derive(Debug)]
pub struct WatchClientOptions {
    channel: Channel,
}

impl Clone for WatchClientOptions {
    fn clone(&self) -> (r: Self) {
        WatchClientOptions { channel: self.channel.clone() }
    }
}

impl WatchClientOptions {
    /// The channel held.
    pub closed spec fn spec_channel(&self) -> Channel {
        self.channel
    }

    /// Options that hold `channel`.
    pub fn new(channel: Channel) -> (r: Self)
        ensures
            r.spec_channel() == channel,
    {
        WatchClientOptions { channel }
    }

    /// A builder with no channel.
    pub fn builder() -> (r: WatchClientOptionsBuilder)
        ensures
            r.spec_channel() is None,
    {
        WatchClientOptionsBuilder { channel: None }
    }

    /// The channel held.
    pub fn channel(self) -> (r: Channel)
        ensures
            r == self.spec_channel(),
    {
        self.channel
    }
}

/// Builder of `WatchClientOptions`.
pub struct WatchClientOptionsBuilder {
    channel: Option<Channel>,
}

impl WatchClientOptionsBuilder {
    /// The channel set so far.
    pub closed spec fn spec_channel(&self) -> Option<Channel> {
        self.channel
    }

    /// Sets the channel.
    pub fn channel(self, channel: Channel) -> (r: Self)
        ensures
            r.spec_channel() == Some(channel),
    {
        let mut b = self;
        b.channel = Some(channel);
        b
    }

    /// The options, or an illegal-argument error where no channel was set.
    pub fn build(self) -> (r: Result<WatchClientOptions, Error>)
        ensures
            match self.spec_channel() {
                Some(channel) => r matches Ok(options) && options.spec_channel() == channel,
                None => r matches Err(Error::IllegalArgument(reason)) && reason@
                    == "channel not specified"@,
            },
    {
        match self.channel {
            Some(channel) => Ok(WatchClientOptions { channel }),
            None => Err(Error::IllegalArgument("channel not specified".to_owned())),
        }
    }
}

/// A kind of event that a watch can leave out.
#[derive(Debug, Clone, Copy, PartialEq, Eq, Structural)]
pub enum FilterType {
    /// Leave out writes.
    NoPut,
    /// Leave out deletes.
    NoDelete,
}

impl FilterType {
    /// The number the wire schema assigns to the filter.
    pub open spec fn spec_code(self) -> i32 {
        match self {
            FilterType::NoPut => 0i32,
            FilterType::NoDelete => 1i32,
        }
    }

    #[verifier::when_used_as_spec(spec_code)]
    pub fn code(self) -> (r: i32)
        ensures
            r == self.spec_code(),
    {
        match self {
            FilterType::NoPut => 0,
            FilterType::NoDelete => 1,
        }
    }
}

/// What a watch is created with.
#[derive(Debug)]
pub struct WatchCreateOptions {
    pub key: ByteSequence,
    pub range_end: ByteSequence,
    pub start_revision: i64,
    pub progress_notify: bool,
    pub filters: Vec<FilterType>,
    pub prev_kv: bool,
}

/// What a `WatchCreateOptions` holds.
pub struct WatchCreateOptionsView {
    pub key: Seq<u8>,
    pub range_end: Seq<u8>,
    pub start_revision: i64,
    pub progress_notify: bool,
    pub filters: Seq<FilterType>,
    pub prev_kv: bool,
}

impl View for WatchCreateOptions {
    type V = WatchCreateOptionsView;

    open spec fn view(&self) -> WatchCreateOptionsView {
        WatchCreateOptionsView {
            key: self.key@,
            range_end: self.range_end@,
            start_revision: self.start_revision,
            progress_notify: self.progress_notify,
            filters: self.filters@,
            prev_kv: self.prev_kv,
        }
    }
}

impl WatchCreateOptionsView {
    /// The create frame of the watch: every field copied, each filter as its
    /// wire number, in the order the filters were added.
    pub open spec fn to_request(self) -> WatchCreateRequestView {
        WatchCreateRequestView {
            key: self.key,
            range_end: self.range_end,
            start_revision: self.start_revision,
            progress_notify: self.progress_notify,
            filters: self.filters.map_values(|f: FilterType| f.spec_code()),
            prev_kv: self.prev_kv,
        }
    }
}

impl Clone for WatchCreateOptions {
    fn clone(&self) -> (r: Self)
        ensures
            r@ == self@,
    {
        let mut filters: Vec<FilterType> = Vec::new();
        let mut i: usize = 0;
        while i < self.filters.len()
            invariant
                i <= self.filters@.len(),
                filters@ == self.filters@.subrange(0, i as int),
            decreases self.filters@.len() - i,
        {
            filters.push(self.filters[i]);
            assert(filters@ =~= self.filters@.subrange(0, i + 1));
            i = i + 1;
        }
        assert(filters@ =~= self.filters@);
        WatchCreateOptions {
            key: self.key.clone(),
            range_end: self.range_end.clone(),
            start_revision: self.start_revision,
            progress_notify: self.progress_notify,
            filters,
            prev_kv: self.prev_kv,
        }
    }
}

impl WatchCreateOptions {
    /// The create frame of the watch.
    pub fn to_request(&self) -> (r: WatchCreateRequest)
        ensures
            r@ == self@.to_request(),
    {
        let mut filter_types: Vec<i32> = Vec::new();
        let mut i: usize = 0;
        while i < self.filters.len()
            invariant
                i <= self.filters@.len(),
                filter_types@ == self.filters@.subrange(0, i as int).map_values(
                    |f: FilterType| f.spec_code(),
                ),
            decreases self.filters@.len() - i,
        {
            filter_types.push(self.filters[i].code());
            assert(filter_types@ =~= self.filters@.subrange(0, i + 1).map_values(
                |f: FilterType| f.spec_code(),
            ));
            i = i + 1;
        }
        assert(self.filters@.subrange(0, i as int) =~= self.filters@);
        WatchCreateRequest {
            key: self.key.to_vec(),
            range_end: self.range_end.to_vec(),
            start_revision: self.start_revision,
            progress_notify: self.progress_notify,
            filters: filter_types,
            prev_kv: self.prev_kv,
        }
    }

    /// A builder with nothing set.
    pub fn builder() -> (r: WatchCreateOptionsBuilder)
        ensures
            r@ == WatchCreateOptionsBuilderView::unset(),
    {
        WatchCreateOptionsBuilder {
            key: None,
            range_end: None,
            start_revision: None,
            progress_notify: None,
            filters: Vec::new(),
            prev_kv: None,
        }
    }
}

/// Builder of `WatchCreateOptions`.
pub struct WatchCreateOptionsBuilder {
    key: Option<ByteSequence>,
    range_end: Option<ByteSequence>,
    start_revision: Option<i64>,
    progress_notify: Option<bool>,
    filters: Vec<FilterType>,
    prev_kv: Option<bool>,
}

/// What a `WatchCreateOptionsBuilder` holds: the key as set so far, and every
/// other field as `build` would return it.
pub struct WatchCreateOptionsBuilderView {
    pub key: Option<Seq<u8>>,
    pub range_end: Seq<u8>,
    pub start_revision: i64,
    pub progress_notify: bool,
    pub filters: Seq<FilterType>,
    pub prev_kv: bool,
}

impl WatchCreateOptionsBuilderView {
    /// Nothing set: no key, an empty range end, no filter.
    pub open spec fn unset() -> WatchCreateOptionsBuilderView {
        WatchCreateOptionsBuilderView {
            key: None,
            range_end: Seq::<u8>::empty(),
            start_revision: 0,
            progress_notify: false,
            filters: Seq::<FilterType>::empty(),
            prev_kv: false,
        }
    }
}

impl View for WatchCreateOptionsBuilder {
    type V = WatchCreateOptionsBuilderView;

    closed spec fn view(&self) -> WatchCreateOptionsBuilderView {
        WatchCreateOptionsBuilderView {
            key: view_of(self.key),
            range_end: match self.range_end {
                Some(end) => end@,
                None => Seq::<u8>::empty(),
            },
            start_revision: self.start_revision.unwrap_or(0),
            progress_notify: self.progress_notify.unwrap_or(false),
            filters: self.filters@,
            prev_kv: self.prev_kv.unwrap_or(false),
        }
    }
}

impl WatchCreateOptionsBuilder {
    /// Sets the key to watch.
    pub fn key(self, key: ByteSequence) -> (r: Self)
        ensures
            r@ == (WatchCreateOptionsBuilderView { key: Some(key@), ..self@ }),
    {
        let mut b = self;
        b.key = Some(key);
        b
    }

    /// Sets the end of the range to watch.
    pub fn range_end(self, range_end: ByteSequence) -> (r: Self)
        ensures
            r@ == (WatchCreateOptionsBuilderView { range_end: range_end@, ..self@ }),
    {
        let mut b = self;
        b.range_end = Some(range_end);
        b
    }

    /// Sets the revision from which events are delivered.
    pub fn start_revision(self, start_revision: i64) -> (r: Self)
        ensures
            r@ == (WatchCreateOptionsBuilderView { start_revision, ..self@ }),
    {
        let mut b = self;
        b.start_revision = Some(start_revision);
        b
    }

    /// Sets whether the service sends checkpoints when no event is due.
    pub fn progress_notify(self, progress_notify: bool) -> (r: Self)
        ensures
            r@ == (WatchCreateOptionsBuilderView { progress_notify, ..self@ }),
    {
        let mut b = self;
        b.progress_notify = Some(progress_notify);
        b
    }

    /// Adds a filter behind those already added.
    pub fn add_filter(self, filter: FilterType) -> (r: Self)
        ensures
            r@ == (WatchCreateOptionsBuilderView { filters: self@.filters.push(filter), ..self@ }),
    {
        let mut b = self;
        b.filters.push(filter);
        b
    }

    /// Sets whether an event carries the pair it replaced.
    pub fn prev_kv(self, prev_kv: bool) -> (r: Self)
        ensures
            r@ == (WatchCreateOptionsBuilderView { prev_kv, ..self@ }),
    {
        let mut b = self;
        b.prev_kv = Some(prev_kv);
        b
    }

    /// The options, or an illegal-argument error where no key was set.
    pub fn build(self) -> (r: Result<WatchCreateOptions, Error>)
        ensures
            match self@.key {
                Some(key) => r matches Ok(options) && options@ == (WatchCreateOptionsView {
                    key,
                    range_end: self@.range_end,
                    start_revision: self@.start_revision,
                    progress_notify: self@.progress_notify,
                    filters: self@.filters,
                    prev_kv: self@.prev_kv,
                }),
                None => r matches Err(Error::IllegalArgument(reason)) && reason@
                    == "key not specified"@,
            },
    {
        match self.key {
            Some(key) => Ok(
                WatchCreateOptions {
                    key,
                    range_end: match self.range_end {
                        Some(end) => end,
                        None => ByteSequence::empty(),
                    },
                    start_revision: self.start_revision.unwrap_or(0),
                    progress_notify: self.progress_notify.unwrap_or(false),
                    filters: self.filters,
                    prev_kv: self.prev_kv.unwrap_or(false),
                },
            ),
            None => Err(Error::IllegalArgument("key not specified".to_owned())),
        }
    }
}

/// A control frame of a watch, before it is compiled.
#[derive(Debug)]
pub enum WatchRequestType {
    /// Open a watch.
    Create(WatchCreateOptions),
    /// End server-side delivery for the watch with this id.
    Cancel(i64),
    /// Ask for a checkpoint event.
    Progress,
}

/// What a `WatchRequestType` holds.
pub enum WatchRequestTypeView {
    Create(WatchCreateOptionsView),
    Cancel(i64),
    Progress,
}

impl View for WatchRequestType {
    type V = WatchRequestTypeView;

    open spec fn view(&self) -> WatchRequestTypeView {
        match self {
            WatchRequestType::Create(o) => WatchRequestTypeView::Create(o@),
            WatchRequestType::Cancel(id) => WatchRequestTypeView::Cancel(*id),
            WatchRequestType::Progress => WatchRequestTypeView::Progress,
        }
    }
}

impl WatchRequestTypeView {
    /// The outbound frame of the control frame.
    pub open spec fn to_request(self) -> WatchRequestView {
        WatchRequestView {
            request_union: Some(
                match self {
                    WatchRequestTypeView::Create(o) => RequestUnionView::CreateRequest(
                        o.to_request(),
                    ),
                    WatchRequestTypeView::Cancel(watch_id) => RequestUnionView::CancelRequest(
                        WatchCancelRequest { watch_id },
                    ),
                    WatchRequestTypeView::Progress => RequestUnionView::ProgressRequest(
                        WatchProgressRequest {  },
                    ),
                },
            ),
        }
    }
}

impl Clone for WatchRequestType {
    fn clone(&self) -> (r: Self)
        ensures
            r@ == self@,
    {
        match self {
            WatchRequestType::Create(o) => WatchRequestType::Create(o.clone()),
            WatchRequestType::Cancel(id) => WatchRequestType::Cancel(*id),
            WatchRequestType::Progress => WatchRequestType::Progress,
        }
    }
}

impl WatchRequestType {
    /// The outbound frame of the control frame.
    pub fn to_request(&self) -> (r: WatchRequest)
        ensures
            r@ == self@.to_request(),
    {
        match self {
            WatchRequestType::Create(e) => WatchRequest {
                request_union: Some(RequestUnion::CreateRequest(e.to_request())),
            },
            WatchRequestType::Cancel(watch_id) => WatchRequest {
                request_union: Some(
                    RequestUnion::CancelRequest(WatchCancelRequest { watch_id: *watch_id }),
                ),
            },
            WatchRequestType::Progress => WatchRequest {
                request_union: Some(RequestUnion::ProgressRequest(WatchProgressRequest {  })),
            },
        }
    }
}

/// Equal control frames compile to equal outbound frames.
pub proof fn lemma_to_request_deterministic(a: WatchRequestType, b: WatchRequestType)
    requires
        a@ == b@,
    ensures
        a@.to_request() == b@.to_request(),
{
}

} // verus!
