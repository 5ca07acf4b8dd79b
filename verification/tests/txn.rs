use rcfe::wire::{
    DeleteRangeRequest, PbCompare, PbRequestOp, PutRequest, RangeRequest, Request, TargetUnion,
    TxnRequest,
};
use rcfe::{
    ByteSequence, Compare, CompareResult, CompareTarget, DefaultTxn, DeleteOptions, Error,
    GetOptions, PutOptions, RequestOp,
};
use std::str::FromStr;

fn bs(s: &str) -> ByteSequence {
    ByteSequence::from(s)
}

fn range_of(key: &[u8], range_end: &[u8]) -> RangeRequest {
    RangeRequest {
        key: key.to_vec(),
        range_end: range_end.to_vec(),
        limit: 0,
        revision: 0,
        sort_order: 0,
        sort_target: 0,
        serializable: false,
        keys_only: false,
        count_only: false,
        min_mod_revision: 0,
        max_mod_revision: 0,
        min_create_revision: 0,
        max_create_revision: 0,
    }
}

fn put_op(key: &str, value: &str) -> RequestOp {
    RequestOp::Put { key: bs(key), value: bs(value), options: None }
}

fn get_op(key: &str) -> RequestOp {
    RequestOp::Get { key: bs(key), options: None }
}

#[test]
fn compare_result_codes_and_symbols() {
    assert_eq!(CompareResult::Equal.code(), 0);
    assert_eq!(CompareResult::Greater.code(), 1);
    assert_eq!(CompareResult::Less.code(), 2);
    assert_eq!(CompareResult::NotEqual.code(), 3);
    assert_eq!(i32::from(CompareResult::NotEqual), 3);
    assert_eq!(CompareResult::Equal.symbol(), "==");
    assert_eq!(CompareResult::Greater.symbol(), ">");
    assert_eq!(CompareResult::Less.symbol(), "<");
    assert_eq!(CompareResult::NotEqual.symbol(), "!=");
    for r in [
        CompareResult::Equal,
        CompareResult::Greater,
        CompareResult::Less,
        CompareResult::NotEqual,
    ] {
        assert_eq!(CompareResult::from_code(r.code()), Some(r));
        assert_eq!(CompareResult::parse(r.symbol()).unwrap(), r);
        assert_eq!(CompareResult::from_str(r.symbol()).unwrap(), r);
    }
    assert_eq!(CompareResult::from_code(4), None);
    assert_eq!(CompareResult::from_code(-1), None);
}

#[test]
fn compare_result_rejects_other_text() {
    for text in ["", "=", "=!", "===", "<=", "eq", " ==", "≠"] {
        match CompareResult::parse(text) {
            Err(Error::IllegalArgument(reason)) => {
                assert_eq!(reason, format!("invalid CompareResult: {}", text))
            }
            other => panic!("{:?} was read as {:?}", text, other),
        }
    }
}

#[test]
fn compare_target_codes() {
    assert_eq!(CompareTarget::Version.code(), 0);
    assert_eq!(CompareTarget::Create.code(), 1);
    assert_eq!(CompareTarget::Mod.code(), 2);
    assert_eq!(CompareTarget::Value.code(), 3);
    assert_eq!(i32::from(CompareTarget::Value), 3);
    for t in [
        CompareTarget::Version,
        CompareTarget::Create,
        CompareTarget::Mod,
        CompareTarget::Value,
    ] {
        assert_eq!(CompareTarget::from_code(t.code()), Some(t));
    }
    assert_eq!(CompareTarget::from_code(9), None);
}

#[test]
fn equality_conditions_carry_one_expected_value() {
    let c = Compare::version_eq(bs("k"), 5);
    assert_eq!(c.target, CompareTarget::Version);
    assert_eq!(c.result, CompareResult::Equal);
    assert_eq!(c.version, Some(5));
    assert!(c.create_revision.is_none() && c.mod_revision.is_none() && c.value.is_none());
    assert!(c.range_end.is_none());
    assert_eq!(
        c.into_pb(),
        PbCompare {
            result: 0,
            target: 0,
            key: b"k".to_vec(),
            range_end: vec![],
            target_union: Some(TargetUnion::Version(5)),
        }
    );
    assert_eq!(
        Compare::create_eq(bs("k"), 6).into_pb().target_union,
        Some(TargetUnion::CreateRevision(6))
    );
    assert_eq!(Compare::create_eq(bs("k"), 6).into_pb().target, 1);
    assert_eq!(
        Compare::mod_eq(bs("k"), 7).into_pb().target_union,
        Some(TargetUnion::ModRevision(7))
    );
    assert_eq!(Compare::mod_eq(bs("k"), 7).into_pb().target, 2);
    let by_value = Compare::value_eq(bs("k"), bs("v")).into_pb();
    assert_eq!(by_value.target_union, Some(TargetUnion::Value(b"v".to_vec())));
    assert_eq!(by_value.target, 3);
}

#[test]
fn condition_with_range_end_and_clone() {
    let c = Compare::version_eq(bs("a"), 1).with_range_end(bs("b"));
    let pb = c.clone().into_pb();
    assert_eq!(pb.range_end, b"b".to_vec());
    assert_eq!(pb.key, b"a".to_vec());
    assert_eq!(c.into_pb(), pb);
}

#[test]
fn compare_builder_copies_what_was_set() {
    let c = Compare::builder()
        .result(CompareResult::Greater)
        .key(bs("k"))
        .mod_revision(12)
        .range_end(bs("l"))
        .build();
    assert_eq!(c.result, CompareResult::Greater);
    assert_eq!(c.target, CompareTarget::Mod);
    assert_eq!(c.mod_revision, Some(12));
    assert_eq!(
        c.into_pb(),
        PbCompare {
            result: 1,
            target: 2,
            key: b"k".to_vec(),
            range_end: b"l".to_vec(),
            target_union: Some(TargetUnion::ModRevision(12)),
        }
    );
    let v = Compare::builder().result(CompareResult::Less).key(bs("k")).value(bs("x")).build();
    assert_eq!(v.target, CompareTarget::Value);
    assert_eq!(v.into_pb().target_union, Some(TargetUnion::Value(b"x".to_vec())));
    let cr = Compare::builder().result(CompareResult::NotEqual).key(bs("k")).create_revision(3).build();
    assert_eq!(cr.target, CompareTarget::Create);
    let ve = Compare::builder().result(CompareResult::Equal).key(bs("k")).version(3).build();
    assert_eq!(ve.target, CompareTarget::Version);
}

#[test]
fn compare_builder_keeps_only_the_last_expected_value() {
    let c = Compare::builder()
        .result(CompareResult::Equal)
        .key(bs("k"))
        .version(1)
        .value(bs("x"))
        .build();
    assert_eq!(c.target, CompareTarget::Value);
    assert_eq!(c.version, None);
    assert_eq!(c.create_revision, None);
    assert_eq!(c.mod_revision, None);
    assert_eq!(c.value, Some(bs("x")));
    let pb = c.into_pb();
    assert_eq!(pb.target, 3);
    assert_eq!(pb.target_union, Some(TargetUnion::Value(b"x".to_vec())));

    let back = Compare::builder()
        .result(CompareResult::Equal)
        .key(bs("k"))
        .value(bs("x"))
        .create_revision(2)
        .mod_revision(3)
        .version(4)
        .build();
    assert_eq!(back.target, CompareTarget::Version);
    assert_eq!(back.version, Some(4));
    assert!(back.value.is_none() && back.create_revision.is_none() && back.mod_revision.is_none());
    assert_eq!(back.into_pb().target_union, Some(TargetUnion::Version(4)));
}

#[test]
fn compare_builder_setters_keep_relation_key_and_range_end() {
    let c = Compare::builder()
        .result(CompareResult::Greater)
        .key(bs("k"))
        .range_end(bs("l"))
        .version(1)
        .mod_revision(9)
        .build();
    assert_eq!(c.result, CompareResult::Greater);
    assert_eq!(c.key, bs("k"));
    assert_eq!(c.range_end, Some(bs("l")));
    assert_eq!(c.target, CompareTarget::Mod);
    assert_eq!(c.mod_revision, Some(9));
    assert_eq!(c.version, None);
}

#[test]
fn compare_builder_clone_builds_the_same_condition() {
    let b = Compare::builder().result(CompareResult::Less).key(bs("k")).value(bs("v"));
    let twin = b.clone();
    assert_eq!(twin.build().into_pb(), b.build().into_pb());
}

#[test]
fn wire_payload_is_the_one_the_target_names() {
    let both = Compare {
        result: CompareResult::Equal,
        target: CompareTarget::Value,
        key: bs("k"),
        version: Some(1),
        create_revision: None,
        mod_revision: None,
        value: Some(bs("x")),
        range_end: None,
    };
    let pb = both.into_pb();
    assert_eq!(pb.target, 3);
    assert_eq!(pb.target_union, Some(TargetUnion::Value(b"x".to_vec())));

    let other_kind_only = Compare {
        result: CompareResult::Equal,
        target: CompareTarget::Value,
        key: bs("k"),
        version: Some(1),
        create_revision: None,
        mod_revision: None,
        value: None,
        range_end: None,
    };
    let pb = other_kind_only.into_pb();
    assert_eq!(pb.target, 3);
    assert_eq!(pb.target_union, None);

    let by_mod = Compare {
        result: CompareResult::Less,
        target: CompareTarget::Mod,
        key: bs("k"),
        version: Some(1),
        create_revision: Some(2),
        mod_revision: Some(3),
        value: Some(bs("x")),
        range_end: None,
    };
    assert_eq!(by_mod.into_pb().target_union, Some(TargetUnion::ModRevision(3)));
}

#[test]
fn operations_without_options_compile_to_plain_requests() {
    assert_eq!(
        put_op("k", "v").into_pb(),
        PbRequestOp {
            request: Some(Request::RequestPut(PutRequest {
                key: b"k".to_vec(),
                value: b"v".to_vec(),
                lease: 0,
                prev_kv: false,
                ignore_value: false,
                ignore_lease: false,
            })),
        }
    );
    assert_eq!(
        get_op("k").into_pb(),
        PbRequestOp { request: Some(Request::RequestRange(range_of(b"k", b""))) }
    );
    assert_eq!(
        (RequestOp::Delete { key: bs("k"), options: None }).into_pb(),
        PbRequestOp {
            request: Some(Request::RequestDeleteRange(DeleteRangeRequest {
                key: b"k".to_vec(),
                range_end: vec![],
                prev_kv: false,
            })),
        }
    );
}

#[test]
fn operations_with_options_compile_through_them() {
    let put = RequestOp::Put {
        key: bs("k"),
        value: bs("v"),
        options: Some(PutOptions::builder().ignore_value(true).lease(2).build()),
    };
    match put.into_pb().request {
        Some(Request::RequestPut(r)) => {
            assert_eq!(r.value, Vec::<u8>::new());
            assert_eq!(r.lease, 2);
            assert!(r.ignore_value);
        }
        other => panic!("{:?}", other),
    }
    let get = RequestOp::Get {
        key: bs("k"),
        options: Some(GetOptions::builder().prefix(true).build()),
    };
    assert_eq!(
        get.clone().into_pb(),
        PbRequestOp { request: Some(Request::RequestRange(range_of(b"k", b"l"))) }
    );
    let delete = RequestOp::Delete {
        key: bs("k"),
        options: Some(DeleteOptions::builder().prefix(true).build()),
    };
    match delete.into_pb().request {
        Some(Request::RequestDeleteRange(r)) => assert_eq!(r.range_end, b"l".to_vec()),
        other => panic!("{:?}", other),
    }
}

#[test]
fn empty_transaction_compiles_to_empty_lists() {
    let txn = DefaultTxn::new();
    assert_eq!(txn.to_request(), TxnRequest { compare: vec![], success: vec![], failure: vec![] });
}

#[test]
fn transaction_keeps_the_order_of_what_was_added() {
    let mut txn = DefaultTxn::new();
    txn.when(vec![Compare::version_eq(bs("a"), 1)]).unwrap();
    txn.when(vec![Compare::mod_eq(bs("b"), 2), Compare::create_eq(bs("c"), 3)]).unwrap();
    txn.and_then(vec![put_op("a", "1")]).unwrap();
    txn.and_then(vec![put_op("b", "2")]).unwrap();
    txn.otherwise(vec![get_op("a")]).unwrap();
    txn.otherwise(vec![get_op("b")]).unwrap();
    let request = txn.to_request();
    let keys: Vec<Vec<u8>> = request.compare.iter().map(|c| c.key.clone()).collect();
    assert_eq!(keys, vec![b"a".to_vec(), b"b".to_vec(), b"c".to_vec()]);
    assert_eq!(request.success, vec![put_op("a", "1").into_pb(), put_op("b", "2").into_pb()]);
    assert_eq!(request.failure, vec![get_op("a").into_pb(), get_op("b").into_pb()]);
    assert_eq!(txn.to_request(), request);
}

#[test]
fn when_after_then_is_refused_and_changes_nothing() {
    let mut txn = DefaultTxn::new();
    txn.when(vec![Compare::version_eq(bs("a"), 1)]).unwrap();
    txn.and_then(vec![put_op("a", "1")]).unwrap();
    let before = txn.to_request();
    match txn.when(vec![Compare::version_eq(bs("z"), 9)]) {
        Err(Error::InvalidTxnSequence(reason)) => {
            assert_eq!(reason, "Cannot add comparisons after 'then' clause!")
        }
        other => panic!("{:?}", other),
    }
    assert_eq!(txn.to_request(), before);
    txn.and_then(vec![put_op("b", "2")]).unwrap();
    assert_eq!(txn.to_request().success.len(), 2);
}

#[test]
fn when_after_an_empty_then_is_refused() {
    let mut txn = DefaultTxn::new();
    txn.and_then(vec![]).unwrap();
    assert!(matches!(txn.when(vec![]), Err(Error::InvalidTxnSequence(_))));
}

#[test]
fn when_after_otherwise_is_refused() {
    let mut txn = DefaultTxn::new();
    txn.otherwise(vec![get_op("a")]).unwrap();
    match txn.when(vec![Compare::version_eq(bs("z"), 9)]) {
        Err(Error::InvalidTxnSequence(reason)) => {
            assert_eq!(reason, "Cannot add comparisons after 'otherwise' clause!")
        }
        other => panic!("{:?}", other),
    }
    assert!(txn.to_request().compare.is_empty());
}

#[test]
fn then_after_otherwise_is_refused_and_changes_nothing() {
    let mut txn = DefaultTxn::new();
    txn.otherwise(vec![get_op("a")]).unwrap();
    let before = txn.to_request();
    match txn.and_then(vec![put_op("a", "1")]) {
        Err(Error::InvalidTxnSequence(reason)) => {
            assert_eq!(reason, "Cannot add 'then' clause after 'otherwise' clause!")
        }
        other => panic!("{:?}", other),
    }
    assert_eq!(txn.to_request(), before);
    assert!(matches!(txn.when(vec![]), Err(Error::InvalidTxnSequence(_))));
    txn.otherwise(vec![get_op("b")]).unwrap();
    assert_eq!(txn.to_request().failure.len(), 2);
}

#[test]
fn otherwise_without_then_is_accepted() {
    let mut txn = DefaultTxn::new();
    txn.when(vec![Compare::value_eq(bs("k"), bs("v"))]).unwrap();
    assert!(txn.otherwise(vec![get_op("k")]).is_ok());
    let request = txn.to_request();
    assert_eq!(request.compare.len(), 1);
    assert!(request.success.is_empty());
    assert_eq!(request.failure.len(), 1);
}

#[test]
fn compare_and_swap_scenario_compiles_to_one_request() {
    let mut txn = DefaultTxn::new();
    txn.when(vec![Compare::version_eq(bs("foo"), 1)]).unwrap();
    txn.and_then(vec![put_op("foo", "baz")]).unwrap();
    txn.otherwise(vec![get_op("foo")]).unwrap();
    assert_eq!(
        txn.to_request(),
        TxnRequest {
            compare: vec![PbCompare {
                result: 0,
                target: 0,
                key: b"foo".to_vec(),
                range_end: vec![],
                target_union: Some(TargetUnion::Version(1)),
            }],
            success: vec![PbRequestOp {
                request: Some(Request::RequestPut(PutRequest {
                    key: b"foo".to_vec(),
                    value: b"baz".to_vec(),
                    lease: 0,
                    prev_kv: false,
                    ignore_value: false,
                    ignore_lease: false,
                })),
            }],
            failure: vec![PbRequestOp {
                request: Some(Request::RequestRange(range_of(b"foo", b""))),
            }],
        }
    );
}

#[test]
fn conversions_into_wire_messages_agree_with_into_pb() {
    let c = Compare::value_eq(bs("k"), bs("v")).with_range_end(bs("l"));
    assert_eq!(PbCompare::from(c.clone()), c.into_pb());
    let op = RequestOp::Get { key: bs("k"), options: Some(GetOptions::builder().limit(2).build()) };
    assert_eq!(PbRequestOp::from(op.clone()), op.into_pb());
}
