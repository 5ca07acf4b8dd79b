//! One operation of a transaction branch.

use vstd::prelude::*;
use vstd::std_specs::convert::FromSpecImpl;
use crate::byte_sequence::ByteSequence;
use crate::options::delete::DeleteOptions;
use crate::options::get::{GetOptions, GetOptionsView};
use crate::options::put::PutOptions;
use crate::wire::{
    DeleteRangeRequest, PbRequestOp, PbRequestOpView, PutRequest, RangeRequest, RangeRequestView,
    Request, RequestView,
};

verus! {

/// A self-contained operation that a transaction branch can hold.
#[derive(Debug)]
#[allow(inconsistent_fields)]
pub enum RequestOp {
    Put { key: ByteSequence, value: ByteSequence, options: Option<PutOptions> },
    Get { key: ByteSequence, options: Option<GetOptions> },
    Delete { key: ByteSequence, options: Option<DeleteOptions> },
}

/// What a `RequestOp` holds.
#[allow(inconsistent_fields)]
pub enum RequestOpView {
    Put { key: Seq<u8>, value: Seq<u8>, options: Option<PutOptions> },
    Get { key: Seq<u8>, options: Option<GetOptionsView> },
    Delete { key: Seq<u8>, options: Option<DeleteOptions> },
}

impl View for RequestOp {
    type V = RequestOpView;

    open spec fn view(&self) -> RequestOpView {
        match self {
            RequestOp::Put { key, value, options } => RequestOpView::Put {
                key: key@,
                value: value@,
                options: *options,
            },
            RequestOp::Get { key, options } => RequestOpView::Get {
                key: key@,
                options: match options {
                    Some(o) => Some(o@),
                    None => None,
                },
            },
            RequestOp::Delete { key, options } => RequestOpView::Delete {
                key: key@,
                options: *options,
            },
        }
    }
}

impl RequestOpView {
    /// The wire message of the operation: the request its options compile to
    /// for its key, and without options the plain request of that key alone.
    pub open spec fn into_pb(self) -> PbRequestOpView {
        PbRequestOpView {
            request: Some(
                match self {
                    RequestOpView::Put { key, value, options } => RequestView::RequestPut(
                        match options {
                            Some(o) => o.spec_to_request(key, value),
                            None => PutOptions::unset().spec_to_request(key, value),
                        },
                    ),
                    RequestOpView::Get { key, options } => RequestView::RequestRange(
                        match options {
                            Some(o) => o.to_request(key),
                            None => RangeRequestView::of_key(key),
                        },
                    ),
                    RequestOpView::Delete { key, options } => RequestView::RequestDeleteRange(
                        match options {
                            Some(o) => o.spec_to_request(key),
                            None => DeleteOptions::unset().spec_to_request(key),
                        },
                    ),
                },
            ),
        }
    }
}

impl Clone for RequestOp {
    fn clone(&self) -> (r: Self)
        ensures
            r@ == self@,
    {
        match self {
            RequestOp::Put { key, value, options } => RequestOp::Put {
                key: key.clone(),
                value: value.clone(),
                options: *options,
            },
            RequestOp::Get { key, options } => RequestOp::Get {
                key: key.clone(),
                options: match options {
                    Some(o) => Some(o.clone()),
                    None => None,
                },
            },
            RequestOp::Delete { key, options } => RequestOp::Delete {
                key: key.clone(),
                options: *options,
            },
        }
    }
}

impl RequestOp {
    /// The wire message of the operation.
    pub fn into_pb(self) -> (r: PbRequestOp)
        ensures
            r@ == self@.into_pb(),
    {
        match self {
            RequestOp::Put { key, value, options } => PbRequestOp {
                request: Some(
                    Request::RequestPut(
                        match options {
                            Some(opts) => opts.to_request(key, value),
                            None => PutRequest {
                                key: key.into_vec(),
                                value: value.into_vec(),
                                lease: 0,
                                prev_kv: false,
                                ignore_value: false,
                                ignore_lease: false,
                            },
                        },
                    ),
                ),
            },
            RequestOp::Get { key, options } => PbRequestOp {
                request: Some(
                    Request::RequestRange(
                        match options {
                            Some(opts) => opts.to_request(&key),
                            None => RangeRequest {
                                key: key.into_vec(),
                                range_end: Vec::new(),
                                limit: 0,
                                revision: 0,
                                sort_order: 0,
                                sort_target: 0,
                                serializable: false,
                                keys_only: false,
                                count_only: false,
                                min_mod_revision: 0,
                                max_mod_revision: 0,
                                min_create_revision: 0,
                                max_create_revision: 0,
                            },
                        },
                    ),
                ),
            },
            RequestOp::Delete { key, options } => PbRequestOp {
                request: Some(
                    Request::RequestDeleteRange(
                        match options {
                            Some(opts) => opts.to_request(&key),
                            None => DeleteRangeRequest {
                                key: key.into_vec(),
                                range_end: Vec::new(),
                                prev_kv: false,
                            },
                        },
                    ),
                ),
            },
        }
    }
}

impl From<RequestOp> for PbRequestOp {
    /// The wire message of the operation, as `into_pb` gives it.
    fn from(value: RequestOp) -> (r: PbRequestOp)
        ensures
            r@ == value@.into_pb(),
    {
        value.into_pb()
    }
}

impl FromSpecImpl<RequestOp> for PbRequestOp {
    open spec fn obeys_from_spec() -> bool {
        false
    }

    open spec fn from_spec(value: RequestOp) -> PbRequestOp {
        arbitrary()
    }
}

/// Equal operations go on the wire as equal messages.
pub proof fn lemma_op_into_pb_deterministic(a: RequestOp, b: RequestOp)
    requires
        a@ == b@,
    ensures
        a@.into_pb() == b@.into_pb(),
{
}

/// An operation without options goes on the wire as the same operation with
/// every option at its default.
pub proof fn lemma_no_options_is_default_options(key: Seq<u8>, value: Seq<u8>)
    ensures
        (RequestOpView::Put { key, value, options: None }).into_pb() == (RequestOpView::Put {
            key,
            value,
            options: Some(PutOptions::unset()),
        }).into_pb(),
        (RequestOpView::Get { key, options: None }).into_pb() == (RequestOpView::Get {
            key,
            options: Some(GetOptionsView::unset()),
        }).into_pb(),
        (RequestOpView::Delete { key, options: None }).into_pb() == (RequestOpView::Delete {
            key,
            options: Some(DeleteOptions::unset()),
        }).into_pb(),
{
}

} // verus!
