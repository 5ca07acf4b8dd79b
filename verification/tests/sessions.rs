use rcfe::lease::revoke_request;
use rcfe::wire::{
    LeaseKeepAliveRequest, LeaseRevokeRequest, RequestUnion, WatchCancelRequest,
    WatchCreateRequest, WatchProgressRequest, WatchRequest,
};
use rcfe::{
    ByteSequence, Error, FilterType, KeepAliveSession, KeepAliveState, WatchAck,
    WatchCreateOptions, WatchRequestType, WatchSession, WatchState,
};

fn bs(s: &str) -> ByteSequence {
    ByteSequence::from(s)
}

fn create_request() -> WatchRequestType {
    WatchRequestType::Create(
        WatchCreateOptions::builder().key(bs("k")).prev_kv(true).build().unwrap(),
    )
}

fn create_frame() -> WatchRequest {
    WatchRequest {
        request_union: Some(RequestUnion::CreateRequest(WatchCreateRequest {
            key: b"k".to_vec(),
            range_end: vec![],
            start_revision: 0,
            progress_notify: false,
            filters: vec![],
            prev_kv: true,
        })),
    }
}

#[test]
fn watch_create_options_need_a_key() {
    match WatchCreateOptions::builder().prev_kv(true).build() {
        Err(Error::IllegalArgument(reason)) => assert_eq!(reason, "key not specified"),
        other => panic!("{:?}", other),
    }
}

#[test]
fn watch_create_options_default_the_rest() {
    let options = WatchCreateOptions::builder().key(bs("k")).build().unwrap();
    assert_eq!(options.key, bs("k"));
    assert_eq!(options.range_end, ByteSequence::empty());
    assert_eq!(options.start_revision, 0);
    assert!(!options.progress_notify);
    assert!(options.filters.is_empty());
    assert!(!options.prev_kv);
}

#[test]
fn watch_create_frame_copies_fields_and_numbers_filters() {
    let options = WatchCreateOptions::builder()
        .key(bs("test_key"))
        .range_end(bs("test_kez"))
        .start_revision(17)
        .progress_notify(true)
        .prev_kv(true)
        .add_filter(FilterType::NoDelete)
        .add_filter(FilterType::NoPut)
        .add_filter(FilterType::NoDelete)
        .build()
        .unwrap();
    assert_eq!(
        options.to_request(),
        WatchCreateRequest {
            key: b"test_key".to_vec(),
            range_end: b"test_kez".to_vec(),
            start_revision: 17,
            progress_notify: true,
            filters: vec![1, 0, 1],
            prev_kv: true,
        }
    );
    assert_eq!(options.clone().to_request(), options.to_request());
    assert_eq!(FilterType::NoPut.code(), 0);
    assert_eq!(FilterType::NoDelete.code(), 1);
}

#[test]
fn watch_control_frames() {
    assert_eq!(create_request().to_request(), create_frame());
    assert_eq!(
        WatchRequestType::Cancel(33).to_request(),
        WatchRequest {
            request_union: Some(RequestUnion::CancelRequest(WatchCancelRequest { watch_id: 33 })),
        }
    );
    assert_eq!(
        WatchRequestType::Progress.to_request(),
        WatchRequest {
            request_union: Some(RequestUnion::ProgressRequest(WatchProgressRequest {})),
        }
    );
    assert_eq!(WatchRequestType::Cancel(33).clone().to_request(), WatchRequestType::Cancel(33).to_request());
}

#[test]
fn watch_session_is_created_by_the_acknowledgement() {
    let mut session = WatchSession::new(create_request());
    assert_eq!(session.id(), 0);
    assert_eq!(session.state(), WatchState::Unopened);
    assert_eq!(session.watch(), create_frame());
    assert_eq!(session.request().to_request(), create_frame());
    assert!(matches!(session.progress(), Err(Error::WatchError(_))));
    assert!(matches!(session.cancel(), Err(Error::WatchError(_))));
    assert_eq!(session.state(), WatchState::Unopened);
    let id = session.establish(Some(WatchAck { watch_id: 7, created: true })).unwrap();
    assert_eq!(id, 7);
    assert_eq!(session.id(), 7);
    assert_eq!(session.state(), WatchState::Created);
    assert_eq!(session.progress().unwrap(), WatchRequestType::Progress.to_request());
    assert_eq!(session.cancel().unwrap(), WatchRequestType::Cancel(7).to_request());
    assert_eq!(session.state(), WatchState::Cancelled);
    assert_eq!(session.progress().unwrap(), WatchRequestType::Progress.to_request());
    assert_eq!(session.cancel().unwrap(), WatchRequestType::Cancel(7).to_request());
    assert_eq!(session.state(), WatchState::Cancelled);
    assert_eq!(session.watch(), create_frame());
    session.close();
    assert_eq!(session.state(), WatchState::Closed);
    assert_eq!(session.id(), 7);
    match session.cancel() {
        Err(Error::WatchError(reason)) => assert_eq!(reason, "Watch is not active"),
        other => panic!("{:?}", other),
    }
    match session.progress() {
        Err(Error::WatchError(reason)) => assert_eq!(reason, "Watch is not active"),
        other => panic!("{:?}", other),
    }
    assert_eq!(session.state(), WatchState::Closed);
}

#[test]
fn watch_session_sends_nothing_before_it_is_created() {
    let mut session = WatchSession::new(create_request());
    match session.progress() {
        Err(Error::WatchError(reason)) => assert_eq!(reason, "Watch is not active"),
        other => panic!("{:?}", other),
    }
    match session.cancel() {
        Err(Error::WatchError(reason)) => assert_eq!(reason, "Watch is not active"),
        other => panic!("{:?}", other),
    }
    assert_eq!(session.state(), WatchState::Unopened);
    assert_eq!(session.id(), 0);
}

#[test]
fn watch_session_fails_when_the_stream_ends_first() {
    let mut session = WatchSession::new(create_request());
    match session.establish(None) {
        Err(Error::WatchError(reason)) => {
            assert_eq!(reason, "Failed to receive watch ID from server")
        }
        other => panic!("{:?}", other),
    }
    assert_eq!(session.state(), WatchState::Closed);
    assert_eq!(session.id(), 0);
}

#[test]
fn watch_session_fails_without_a_creation_acknowledgement() {
    let mut session = WatchSession::new(create_request());
    match session.establish(Some(WatchAck { watch_id: 7, created: false })) {
        Err(Error::WatchError(reason)) => {
            assert_eq!(reason, "Failed to create watch: creation was not acknowledged")
        }
        other => panic!("{:?}", other),
    }
    assert_eq!(session.state(), WatchState::Closed);
    assert_eq!(session.id(), 0);
}

#[test]
fn watch_session_is_established_once() {
    let mut session = WatchSession::new(create_request());
    session.establish(Some(WatchAck { watch_id: 7, created: true })).unwrap();
    match session.establish(Some(WatchAck { watch_id: 8, created: true })) {
        Err(Error::WatchError(reason)) => assert_eq!(reason, "Watch is already established"),
        other => panic!("{:?}", other),
    }
    assert_eq!(session.id(), 7);
    assert_eq!(session.state(), WatchState::Created);
}

#[test]
fn watch_session_classifies_stream_failures() {
    let mut session = WatchSession::new(create_request());
    session.establish(Some(WatchAck { watch_id: 7, created: true })).unwrap();
    match session.fail(String::from("channel closed")) {
        Error::WatchError(reason) => assert_eq!(reason, "channel closed"),
        other => panic!("{:?}", other),
    }
    assert_eq!(session.state(), WatchState::Closed);
    assert!(matches!(session.progress(), Err(Error::WatchError(_))));
}

#[test]
fn keep_alive_session_binds_on_matching_acknowledgement() {
    let mut session = KeepAliveSession::new(1234);
    assert_eq!(session.lease_id(), 1234);
    assert_eq!(session.state(), KeepAliveState::Unopened);
    assert_eq!(session.keep_alive().unwrap(), LeaseKeepAliveRequest { id: 1234 });
    assert_eq!(session.bind(Some(1234)).unwrap(), 1234);
    assert_eq!(session.state(), KeepAliveState::Bound);
    assert_eq!(session.keep_alive().unwrap(), LeaseKeepAliveRequest { id: 1234 });
    match session.bind(Some(1234)) {
        Err(Error::KeepAliveError(reason)) => {
            assert_eq!(reason, "Keep-alive stream is already established")
        }
        other => panic!("{:?}", other),
    }
    assert_eq!(session.state(), KeepAliveState::Bound);
    session.close();
    assert_eq!(session.state(), KeepAliveState::Closed);
    match session.keep_alive() {
        Err(Error::KeepAliveError(reason)) => assert_eq!(reason, "Keep-alive stream is closed"),
        other => panic!("{:?}", other),
    }
}

#[test]
fn keep_alive_session_rejects_another_lease() {
    let mut session = KeepAliveSession::new(1234);
    match session.bind(Some(1235)) {
        Err(Error::KeepAliveError(reason)) => {
            assert_eq!(reason, "Failed to create keep-alive stream: lease ID mismatch")
        }
        other => panic!("{:?}", other),
    }
    assert_eq!(session.state(), KeepAliveState::Closed);
    assert_eq!(session.lease_id(), 1234);
}

#[test]
fn keep_alive_session_fails_when_the_stream_ends_first() {
    let mut session = KeepAliveSession::new(1234);
    match session.bind(None) {
        Err(Error::KeepAliveError(reason)) => {
            assert_eq!(reason, "Failed to create keep-alive stream: no response received")
        }
        other => panic!("{:?}", other),
    }
    assert_eq!(session.state(), KeepAliveState::Closed);
}

#[test]
fn keep_alive_session_classifies_stream_failures() {
    let mut session = KeepAliveSession::new(5);
    session.bind(Some(5)).unwrap();
    match session.fail(String::from("channel closed")) {
        Error::KeepAliveError(reason) => assert_eq!(reason, "channel closed"),
        other => panic!("{:?}", other),
    }
    assert_eq!(session.state(), KeepAliveState::Closed);
    assert_eq!(session.lease_id(), 5);
}

#[test]
fn revoke_request_names_the_lease() {
    assert_eq!(revoke_request(88), LeaseRevokeRequest { id: 88 });
}
