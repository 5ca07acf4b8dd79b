//! The request messages of the wire schema, as plain values, each with the
//! mathematical view that the contracts of this crate speak of.

use vstd::prelude::*;

verus! {

/// The order in which a range read returns its results.
#[derive(Debug, Clone, Copy, PartialEq, Eq, Structural)]
pub enum SortOrder {
    Unsorted,
    Ascend,
    Descend,
}

impl SortOrder {
    /// The number the wire schema assigns to the order.
    pub open spec fn spec_code(self) -> i32 {
        match self {
            SortOrder::Unsorted => 0i32,
            SortOrder::Ascend => 1i32,
            SortOrder::Descend => 2i32,
        }
    }

    #[verifier::when_used_as_spec(spec_code)]
    pub fn code(self) -> (r: i32)
        ensures
            r == self.spec_code(),
    {
        match self {
            SortOrder::Unsorted => 0,
            SortOrder::Ascend => 1,
            SortOrder::Descend => 2,
        }
    }
}

/// The field by which a range read sorts its results.
#[derive(Debug, Clone, Copy, PartialEq, Eq, Structural)]
pub enum SortTarget {
    Key,
    Version,
    Create,
    Mod,
    Value,
}

impl SortTarget {
    /// The number the wire schema assigns to the target.
    pub open spec fn spec_code(self) -> i32 {
        match self {
            SortTarget::Key => 0i32,
            SortTarget::Version => 1i32,
            SortTarget::Create => 2i32,
            SortTarget::Mod => 3i32,
            SortTarget::Value => 4i32,
        }
    }

    #[verifier::when_used_as_spec(spec_code)]
    pub fn code(self) -> (r: i32)
        ensures
            r == self.spec_code(),
    {
        match self {
            SortTarget::Key => 0,
            SortTarget::Version => 1,
            SortTarget::Create => 2,
            SortTarget::Mod => 3,
            SortTarget::Value => 4,
        }
    }
}

/// A range read.
#[derive(Debug, Clone, PartialEq, Eq)]
pub struct RangeRequest {
    pub key: Vec<u8>,
    pub range_end: Vec<u8>,
    pub limit: i64,
    pub revision: i64,
    pub sort_order: i32,
    pub sort_target: i32,
    pub serializable: bool,
    pub keys_only: bool,
    pub count_only: bool,
    pub min_mod_revision: i64,
    pub max_mod_revision: i64,
    pub min_create_revision: i64,
    pub max_create_revision: i64,
}

/// What a `RangeRequest` holds.
pub struct RangeRequestView {
    pub key: Seq<u8>,
    pub range_end: Seq<u8>,
    pub limit: i64,
    pub revision: i64,
    pub sort_order: i32,
    pub sort_target: i32,
    pub serializable: bool,
    pub keys_only: bool,
    pub count_only: bool,
    pub min_mod_revision: i64,
    pub max_mod_revision: i64,
    pub min_create_revision: i64,
    pub max_create_revision: i64,
}

impl RangeRequestView {
    /// A read of the single key `key`, every other field at its default.
    pub open spec fn of_key(key: Seq<u8>) -> RangeRequestView {
        RangeRequestView {
            key,
            range_end: Seq::<u8>::empty(),
            limit: 0,
            revision: 0,
            sort_order: 0,
            sort_target: 0,
            serializable: false,
            keys_only: false,
            count_only: false,
            min_mod_revision: 0,
            max_mod_revision: 0,
            min_create_revision: 0,
            max_create_revision: 0,
        }
    }
}

impl View for RangeRequest {
    type V = RangeRequestView;

    open spec fn view(&self) -> RangeRequestView {
        RangeRequestView {
            key: self.key@,
            range_end: self.range_end@,
            limit: self.limit,
            revision: self.revision,
            sort_order: self.sort_order,
            sort_target: self.sort_target,
            serializable: self.serializable,
            keys_only: self.keys_only,
            count_only: self.count_only,
            min_mod_revision: self.min_mod_revision,
            max_mod_revision: self.max_mod_revision,
            min_create_revision: self.min_create_revision,
            max_create_revision: self.max_create_revision,
        }
    }
}

/// A write of one key.
#[derive(Debug, Clone, PartialEq, Eq)]
pub struct PutRequest {
    pub key: Vec<u8>,
    pub value: Vec<u8>,
    pub lease: i64,
    pub prev_kv: bool,
    pub ignore_value: bool,
    pub ignore_lease: bool,
}

/// What a `PutRequest` holds.
pub struct PutRequestView {
    pub key: Seq<u8>,
    pub value: Seq<u8>,
    pub lease: i64,
    pub prev_kv: bool,
    pub ignore_value: bool,
    pub ignore_lease: bool,
}

impl View for PutRequest {
    type V = PutRequestView;

    open spec fn view(&self) -> PutRequestView {
        PutRequestView {
            key: self.key@,
            value: self.value@,
            lease: self.lease,
            prev_kv: self.prev_kv,
            ignore_value: self.ignore_value,
            ignore_lease: self.ignore_lease,
        }
    }
}

/// A delete of a key or a range of keys.
#[derive(Debug, Clone, PartialEq, Eq)]
pub struct DeleteRangeRequest {
    pub key: Vec<u8>,
    pub range_end: Vec<u8>,
    pub prev_kv: bool,
}

/// What a `DeleteRangeRequest` holds.
pub struct DeleteRangeRequestView {
    pub key: Seq<u8>,
    pub range_end: Seq<u8>,
    pub prev_kv: bool,
}

impl View for DeleteRangeRequest {
    type V = DeleteRangeRequestView;

    open spec fn view(&self) -> DeleteRangeRequestView {
        DeleteRangeRequestView {
            key: self.key@,
            range_end: self.range_end@,
            prev_kv: self.prev_kv,
        }
    }
}

/// A compaction of the store's history up to a revision.
#[derive(Debug, Clone, Copy, PartialEq, Eq, Structural)]
pub struct CompactionRequest {
    pub revision: i64,
    pub physical: bool,
}

/// A request for a new lease.
#[derive(Debug, Clone, Copy, PartialEq, Eq, Structural)]
pub struct LeaseGrantRequest {
    pub ttl: i64,
    pub id: i64,
}

/// A request to end a lease.
#[derive(Debug, Clone, Copy, PartialEq, Eq, Structural)]
pub struct LeaseRevokeRequest {
    pub id: i64,
}

/// One keep-alive ping for a lease.
#[derive(Debug, Clone, Copy, PartialEq, Eq, Structural)]
pub struct LeaseKeepAliveRequest {
    pub id: i64,
}

/// A query for the time a lease has left.
#[derive(Debug, Clone, Copy, PartialEq, Eq, Structural)]
pub struct LeaseTimeToLiveRequest {
    pub id: i64,
    pub keys: bool,
}

/// The expected value of a comparison; its variant is the comparison's target.
#[derive(Debug, Clone, PartialEq, Eq)]
pub enum TargetUnion {
    Version(i64),
    CreateRevision(i64),
    ModRevision(i64),
    Value(Vec<u8>),
}

/// What a `TargetUnion` holds.
pub enum TargetUnionView {
    Version(i64),
    CreateRevision(i64),
    ModRevision(i64),
    Value(Seq<u8>),
}

impl View for TargetUnion {
    type V = TargetUnionView;

    open spec fn view(&self) -> TargetUnionView {
        match self {
            TargetUnion::Version(v) => TargetUnionView::Version(*v),
            TargetUnion::CreateRevision(v) => TargetUnionView::CreateRevision(*v),
            TargetUnion::ModRevision(v) => TargetUnionView::ModRevision(*v),
            TargetUnion::Value(v) => TargetUnionView::Value(v@),
        }
    }
}

/// One condition of a transaction.
#[derive(Debug, Clone, PartialEq, Eq)]
pub struct PbCompare {
    pub result: i32,
    pub target: i32,
    pub key: Vec<u8>,
    pub range_end: Vec<u8>,
    pub target_union: Option<TargetUnion>,
}

/// What a `PbCompare` holds.
pub struct PbCompareView {
    pub result: i32,
    pub target: i32,
    pub key: Seq<u8>,
    pub range_end: Seq<u8>,
    pub target_union: Option<TargetUnionView>,
}

impl View for PbCompare {
    type V = PbCompareView;

    open spec fn view(&self) -> PbCompareView {
        PbCompareView {
            result: self.result,
            target: self.target,
            key: self.key@,
            range_end: self.range_end@,
            target_union: match self.target_union {
                Some(u) => Some(u@),
                None => None,
            },
        }
    }
}

/// The operation inside a `PbRequestOp`.
#[derive(Debug, Clone, PartialEq, Eq)]
pub enum Request {
    RequestRange(RangeRequest),
    RequestPut(PutRequest),
    RequestDeleteRange(DeleteRangeRequest),
}

/// What a `Request` holds.
pub enum RequestView {
    RequestRange(RangeRequestView),
    RequestPut(PutRequestView),
    RequestDeleteRange(DeleteRangeRequestView),
}

impl View for Request {
    type V = RequestView;

    open spec fn view(&self) -> RequestView {
        match self {
            Request::RequestRange(r) => RequestView::RequestRange(r@),
            Request::RequestPut(r) => RequestView::RequestPut(r@),
            Request::RequestDeleteRange(r) => RequestView::RequestDeleteRange(r@),
        }
    }
}

/// One operation of a transaction branch.
#[derive(Debug, Clone, PartialEq, Eq)]
pub struct PbRequestOp {
    pub request: Option<Request>,
}

/// What a `PbRequestOp` holds.
pub struct PbRequestOpView {
    pub request: Option<RequestView>,
}

impl View for PbRequestOp {
    type V = PbRequestOpView;

    open spec fn view(&self) -> PbRequestOpView {
        PbRequestOpView {
            request: match self.request {
                Some(r) => Some(r@),
                None => None,
            },
        }
    }
}

/// An atomic compare-and-branch transaction.
#[derive(Debug, Clone, PartialEq, Eq)]
pub struct TxnRequest {
    pub compare: Vec<PbCompare>,
    pub success: Vec<PbRequestOp>,
    pub failure: Vec<PbRequestOp>,
}

/// What a `TxnRequest` holds.
pub struct TxnRequestView {
    pub compare: Seq<PbCompareView>,
    pub success: Seq<PbRequestOpView>,
    pub failure: Seq<PbRequestOpView>,
}

impl View for TxnRequest {
    type V = TxnRequestView;

    open spec fn view(&self) -> TxnRequestView {
        TxnRequestView {
            compare: self.compare@.map_values(|c: PbCompare| c@),
            success: self.success@.map_values(|o: PbRequestOp| o@),
            failure: self.failure@.map_values(|o: PbRequestOp| o@),
        }
    }
}

/// The control frame that opens a watch.
#[derive(Debug, Clone, PartialEq, Eq)]
pub struct WatchCreateRequest {
    pub key: Vec<u8>,
    pub range_end: Vec<u8>,
    pub start_revision: i64,
    pub progress_notify: bool,
    pub filters: Vec<i32>,
    pub prev_kv: bool,
}

/// What a `WatchCreateRequest` holds.
pub struct WatchCreateRequestView {
    pub key: Seq<u8>,
    pub range_end: Seq<u8>,
    pub start_revision: i64,
    pub progress_notify: bool,
    pub filters: Seq<i32>,
    pub prev_kv: bool,
}

impl View for WatchCreateRequest {
    type V = WatchCreateRequestView;

    open spec fn view(&self) -> WatchCreateRequestView {
        WatchCreateRequestView {
            key: self.key@,
            range_end: self.range_end@,
            start_revision: self.start_revision,
            progress_notify: self.progress_notify,
            filters: self.filters@,
            prev_kv: self.prev_kv,
        }
    }
}

/// The control frame that ends server-side delivery for one watch.
#[derive(Debug, Clone, Copy, PartialEq, Eq, Structural)]
pub struct WatchCancelRequest {
    pub watch_id: i64,
}

/// The control frame that asks for a checkpoint event.
#[derive(Debug, Clone, Copy, PartialEq, Eq, Structural)]
pub struct WatchProgressRequest {}

/// The control frame inside a `WatchRequest`.
#[derive(Debug, Clone, PartialEq, Eq)]
pub enum RequestUnion {
    CreateRequest(WatchCreateRequest),
    CancelRequest(WatchCancelRequest),
    ProgressRequest(WatchProgressRequest),
}

/// What a `RequestUnion` holds.
pub enum RequestUnionView {
    CreateRequest(WatchCreateRequestView),
    CancelRequest(WatchCancelRequest),
    ProgressRequest(WatchProgressRequest),
}

impl View for RequestUnion {
    type V = RequestUnionView;

    open spec fn view(&self) -> RequestUnionView {
        match self {
            RequestUnion::CreateRequest(r) => RequestUnionView::CreateRequest(r@),
            RequestUnion::CancelRequest(r) => RequestUnionView::CancelRequest(*r),
            RequestUnion::ProgressRequest(r) => RequestUnionView::ProgressRequest(*r),
        }
    }
}

/// One outbound frame of a watch stream.
#[derive(Debug, Clone, PartialEq, Eq)]
pub struct WatchRequest {
    pub request_union: Option<RequestUnion>,
}

/// What a `WatchRequest` holds.
pub struct WatchRequestView {
    pub request_union: Option<RequestUnionView>,
}

impl View for WatchRequest {
    type V = WatchRequestView;

    open spec fn view(&self) -> WatchRequestView {
        WatchRequestView {
            request_union: match self.request_union {
                Some(u) => Some(u@),
                None => None,
            },
        }
    }
}

} // verus!
