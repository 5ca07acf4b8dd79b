use rcfe::kv::{all_keys_bound, get_all_request, get_request};
use rcfe::wire::{
    CompactionRequest, DeleteRangeRequest, LeaseGrantRequest, LeaseTimeToLiveRequest, PutRequest,
    RangeRequest,
};
use rcfe::{
    ByteSequence, CompactOptions, CompactOptionsBuilder, DeleteOptions, DeleteOptionsBuilder,
    GetOptions, GetOptionsBuilder, GrantOptions, GrantOptionsBuilder, NamespaceBuilder,
    Namespaceable, PutOptions, PutOptionsBuilder, SortOrder, SortTarget, TimeToLiveOptions,
    TimeToLiveOptionsBuilder,
};

fn bs(s: &str) -> ByteSequence {
    ByteSequence::from(s)
}

fn plain_range(key: &[u8], range_end: &[u8]) -> RangeRequest {
    RangeRequest {
        key: key.to_vec(),
        range_end: range_end.to_vec(),
        limit: 0,
        revision: 0,
        sort_order: 0,
        sort_target: 0,
        serializable: false,
        keys_only: false,
        count_only: false,
        min_mod_revision: 0,
        max_mod_revision: 0,
        min_create_revision: 0,
        max_create_revision: 0,
    }
}

#[test]
fn get_defaults_compile_to_a_single_key_read() {
    let request = GetOptions::default().to_request(&bs("foo"));
    assert_eq!(request, plain_range(b"foo", b""));
    let built = GetOptions::builder().build().to_request(&bs("foo"));
    assert_eq!(built, request);
}

#[test]
fn get_copies_every_scalar_field() {
    let options = GetOptions::builder()
        .limit(7)
        .revision(42)
        .sort_order(SortOrder::Descend)
        .sort_target(SortTarget::Mod)
        .serializable(true)
        .keys_only(true)
        .count_only(true)
        .min_mod_revision(1)
        .max_mod_revision(2)
        .min_create_revision(3)
        .max_create_revision(4)
        .end_key(bs("z"))
        .build();
    assert_eq!(options.limit, 7);
    assert_eq!(options.revision, 42);
    assert!(!options.prefix);
    let request = options.to_request(&bs("a"));
    assert_eq!(
        request,
        RangeRequest {
            key: b"a".to_vec(),
            range_end: b"z".to_vec(),
            limit: 7,
            revision: 42,
            sort_order: 2,
            sort_target: 3,
            serializable: true,
            keys_only: true,
            count_only: true,
            min_mod_revision: 1,
            max_mod_revision: 2,
            min_create_revision: 3,
            max_create_revision: 4,
        }
    );
}

#[test]
fn sort_codes_follow_the_wire_schema() {
    assert_eq!(SortOrder::Unsorted.code(), 0);
    assert_eq!(SortOrder::Ascend.code(), 1);
    assert_eq!(SortOrder::Descend.code(), 2);
    assert_eq!(SortTarget::Key.code(), 0);
    assert_eq!(SortTarget::Version.code(), 1);
    assert_eq!(SortTarget::Create.code(), 2);
    assert_eq!(SortTarget::Mod.code(), 3);
    assert_eq!(SortTarget::Value.code(), 4);
}

#[test]
fn prefix_wins_over_an_explicit_end_key() {
    let request = GetOptions::builder().end_key(bs("zzz")).prefix(true).build().to_request(&bs("ab"));
    assert_eq!(request, plain_range(b"ab", b"ac"));
}

#[test]
fn prefix_read_equals_explicit_successor_read() {
    let keys: Vec<Vec<u8>> = vec![
        b"abc".to_vec(),
        vec![0x61, 0xFF],
        vec![0xFF, 0xFF],
        vec![],
        vec![0],
    ];
    let namespaces: Vec<Option<ByteSequence>> =
        vec![None, Some(bs("ns/")), Some(ByteSequence::from(vec![0x10u8, 0xFF]))];
    for key in keys.iter() {
        for ns in namespaces.iter() {
            let key = ByteSequence::from(key.clone());
            let by_prefix = GetOptions::builder()
                .namespace(ns.clone())
                .prefix(true)
                .limit(3)
                .build()
                .to_request(&key);
            let by_end = GetOptions::builder()
                .namespace(ns.clone())
                .end_key(key.next())
                .limit(3)
                .build()
                .to_request(&key);
            assert_eq!(by_prefix, by_end);
        }
    }
}

#[test]
fn prefix_read_under_namespace_ends_at_successor_of_wire_key() {
    let request = GetOptions::builder()
        .namespace(Some(bs("ns/")))
        .prefix(true)
        .build()
        .to_request(&bs("ab"));
    assert_eq!(request, plain_range(b"ns/ab", b"ns/ac"));
    let all_max = GetOptions::builder()
        .namespace(Some(bs("ns/")))
        .prefix(true)
        .build()
        .to_request(&ByteSequence::from(vec![0xFFu8, 0xFF]));
    assert_eq!(all_max, plain_range(b"ns/\xff\xff", b"ns0"));
}

#[test]
fn namespace_prefixes_key_and_end_key() {
    let options = GetOptions::builder().namespace(Some(bs("app/"))).end_key(bs("m")).build();
    assert_eq!(options.namespace(), Some(bs("app/")));
    assert_eq!(options.to_request(&bs("a")), plain_range(b"app/a", b"app/m"));
}

#[test]
fn namespace_turns_an_open_bound_into_its_own_successor() {
    let nul = GetOptions::builder().namespace(Some(bs("app/"))).end_key(bs("\0")).build();
    assert_eq!(nul.to_request(&bs("a")), plain_range(b"app/a", b"app0"));
    let empty = GetOptions::builder()
        .namespace(Some(bs("app/")))
        .end_key(ByteSequence::empty())
        .build();
    assert_eq!(empty.to_request(&bs("a")), plain_range(b"app/a", b"app0"));
    let all_max_ns = GetOptions::builder()
        .namespace(Some(ByteSequence::from(vec![0xFFu8])))
        .end_key(bs("\0"))
        .build();
    assert_eq!(all_max_ns.to_request(&bs("a")), plain_range(b"\xffa", b""));
}

#[test]
fn no_end_key_stays_empty_under_a_namespace() {
    let options = GetOptions::builder().namespace(Some(bs("app/"))).build();
    assert_eq!(options.to_request(&bs("a")), plain_range(b"app/a", b""));
}

#[test]
fn namespace_none_leaves_the_builder_as_it_is() {
    let options = GetOptions::builder().namespace(Some(bs("a/"))).namespace(None).build();
    assert_eq!(options.namespace(), Some(bs("a/")));
    assert_eq!(GetOptions::default().namespace(), None);
    let replaced = GetOptions::default().with_namespace(Some(bs("b/")));
    assert_eq!(replaced.namespace(), Some(bs("b/")));
}

#[test]
fn compilation_is_repeatable() {
    let make = || {
        GetOptions::builder().namespace(Some(bs("n/"))).prefix(true).limit(9).build()
    };
    assert_eq!(make().to_request(&bs("k")), make().to_request(&bs("k")));
    let options = make();
    assert_eq!(options.clone().to_request(&bs("k")), options.to_request(&bs("k")));
    let put = PutOptions::builder().lease(4).build();
    assert_eq!(put.to_request(bs("k"), bs("v")), put.to_request(bs("k"), bs("v")));
    let delete = DeleteOptions::builder().prefix(true).build();
    assert_eq!(delete.to_request(&bs("k")), delete.to_request(&bs("k")));
}

#[test]
fn client_get_goes_under_the_namespace() {
    assert_eq!(get_request(Some(bs("N/")), &bs("k")), plain_range(b"N/k", b""));
    assert_eq!(get_request(None, &bs("k")), plain_range(b"k", b""));
}

#[test]
fn client_get_all_covers_the_namespace() {
    assert_eq!(all_keys_bound().as_bytes(), &[0u8]);
    assert_eq!(get_all_request(Some(bs("N/")), None), plain_range(b"N/\0", b"N0"));
    assert_eq!(get_all_request(None, None), plain_range(b"\0", b"\0"));
    let with_options =
        get_all_request(Some(bs("N/")), Some(GetOptions::builder().keys_only(true).end_key(bs("q")).build()));
    let mut expected = plain_range(b"N/\0", b"N0");
    expected.keys_only = true;
    assert_eq!(with_options, expected);
    let own_namespace =
        get_all_request(None, Some(GetOptions::builder().namespace(Some(bs("own/"))).build()));
    assert_eq!(own_namespace, plain_range(b"own/\0", b"own0"));
}

#[test]
fn client_get_all_with_prefix_reads_the_prefix() {
    let request = get_all_request(Some(bs("N/")), Some(GetOptions::builder().prefix(true).build()));
    assert_eq!(request, plain_range(b"N/\0", b"N/\x01"));
}

#[test]
fn put_compiles_its_fields() {
    let options =
        PutOptions::builder().lease(11).prev_kv(true).ignore_lease(true).build();
    assert_eq!(
        options.to_request(bs("k"), bs("v")),
        PutRequest {
            key: b"k".to_vec(),
            value: b"v".to_vec(),
            lease: 11,
            prev_kv: true,
            ignore_value: false,
            ignore_lease: true,
        }
    );
    assert_eq!(PutOptions::builder().build(), PutOptions::default());
    assert_eq!(PutOptions::default().lease, 0);
}

#[test]
fn put_sends_no_value_when_it_is_ignored() {
    let options = PutOptions::builder().ignore_value(true).build();
    let request = options.to_request(bs("k"), bs("v"));
    assert_eq!(request.value, Vec::<u8>::new());
    assert!(request.ignore_value);
    assert_eq!(request.key, b"k".to_vec());
}

#[test]
fn delete_compiles_single_key_and_prefix() {
    let single = DeleteOptions::default().to_request(&bs("k"));
    assert_eq!(single, DeleteRangeRequest { key: b"k".to_vec(), range_end: vec![], prev_kv: false });
    let prefix = DeleteOptions::builder().prefix(true).prev_kv(true).build().to_request(&bs("k\u{7f}"));
    assert_eq!(
        prefix,
        DeleteRangeRequest { key: b"k\x7f".to_vec(), range_end: b"k\x80".to_vec(), prev_kv: true }
    );
    let all_max = DeleteOptions::builder().prefix(true).build().to_request(&ByteSequence::from(vec![0xFFu8]));
    assert_eq!(all_max.range_end, Vec::<u8>::new());
}

#[test]
fn compact_compiles_revision_and_flag() {
    assert_eq!(
        CompactOptions::default().to_request(42),
        CompactionRequest { revision: 42, physical: false }
    );
    assert_eq!(
        CompactOptions::builder().physical(true).build().to_request(-1),
        CompactionRequest { revision: -1, physical: true }
    );
    assert_eq!(CompactOptions::builder().build(), CompactOptions::default());
}

#[test]
fn grant_compiles_seconds_and_id() {
    assert_eq!(GrantOptions::default().to_request(5), LeaseGrantRequest { ttl: 5, id: 0 });
    assert_eq!(
        GrantOptions::builder().id(77).build().to_request(3600),
        LeaseGrantRequest { ttl: 3600, id: 77 }
    );
    assert_eq!(GrantOptions::default().to_request(u64::MAX).ttl, -1);
    assert_eq!(GrantOptions::default().to_request(1u64 << 63).ttl, i64::MIN);
}

#[test]
fn time_to_live_compiles_id_and_keys() {
    assert!(!TimeToLiveOptions::default().keys());
    assert_eq!(
        TimeToLiveOptions::default().to_request(9),
        LeaseTimeToLiveRequest { id: 9, keys: false }
    );
    let with_keys = TimeToLiveOptions::builder().keys(true).build();
    assert!(with_keys.keys());
    assert_eq!(with_keys.to_request(9), LeaseTimeToLiveRequest { id: 9, keys: true });
}

#[test]
fn client_get_all_reads_the_sub_keyspace_and_nothing_else() {
    let namespaces: Vec<Vec<u8>> = vec![b"N/".to_vec(), vec![0xFF], vec![0x61, 0xFF], vec![]];
    let keys: Vec<Vec<u8>> = vec![
        vec![],
        b"N".to_vec(),
        b"N/".to_vec(),
        b"N/\0".to_vec(),
        b"N/a".to_vec(),
        b"N/\xff\xff".to_vec(),
        b"N0".to_vec(),
        b"M/z".to_vec(),
        vec![0xFF],
        vec![0xFF, 0x00],
        vec![0xFF, 0xFF],
        vec![0x61, 0xFF],
        vec![0x61, 0xFF, 0x00],
        vec![0x62],
        vec![0x00],
    ];
    for ns in namespaces.iter() {
        let request = get_all_request(Some(ByteSequence::from(ns.clone())), None);
        for x in keys.iter() {
            let in_range =
                &request.key <= x && (request.range_end.is_empty() || x < &request.range_end);
            assert_eq!(in_range, x.starts_with(ns) && x.len() > ns.len(), "ns = {:?}, x = {:?}", ns, x);
        }
    }
}

#[test]
fn default_builders_build_default_options() {
    assert_eq!(
        GetOptionsBuilder::default().build().to_request(&bs("k")),
        GetOptions::default().to_request(&bs("k"))
    );
    assert_eq!(PutOptionsBuilder::default().build(), PutOptions::default());
    assert_eq!(DeleteOptionsBuilder::default().prefix(true).build().prefix, true);
    assert_eq!(DeleteOptionsBuilder::default().build(), DeleteOptions::default());
    assert_eq!(CompactOptionsBuilder::default().build(), CompactOptions::default());
    assert_eq!(GrantOptionsBuilder::default().build(), GrantOptions::default());
    assert!(!TimeToLiveOptionsBuilder::default().build().keys());
}
