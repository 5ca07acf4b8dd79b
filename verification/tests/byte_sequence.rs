use rcfe::ByteSequence;

#[test]
fn test_next() {
    // Basic test case
    let from = ByteSequence::from("abc");
    let next_seq = from.next();
    assert_eq!(next_seq, ByteSequence::from("abd"));

    // Test case with 0xff bytes
    let from = ByteSequence::from(b"ab\xff\xff" as &[u8]); // [0x61,0x62,0xff,0xff]
    let next_seq = from.next();
    assert_eq!(next_seq.as_bytes(), b"ac");

    // Test case where all bytes are 0xff
    let from = ByteSequence::from(b"\xff\xff" as &[u8]); // [0xff,0xff]
    let next_seq = from.next();
    assert_eq!(next_seq.as_bytes(), ByteSequence::empty().as_bytes());
}

#[test]
fn next_of_empty_is_empty() {
    let empty = ByteSequence::empty();
    assert!(empty.is_empty());
    assert_eq!(empty.next(), ByteSequence::empty());
    assert_eq!(empty.next().as_bytes().len(), 0);
}

#[test]
fn next_of_all_max_bytes_is_empty() {
    for n in 1..6usize {
        let k = ByteSequence::from(vec![0xFFu8; n]);
        assert_eq!(k.next().to_vec(), Vec::<u8>::new());
    }
}

#[test]
fn next_increments_last_retained_byte() {
    assert_eq!(ByteSequence::from(vec![0u8]).next().to_vec(), vec![1u8]);
    assert_eq!(ByteSequence::from(vec![0xFEu8]).next().to_vec(), vec![0xFFu8]);
    assert_eq!(ByteSequence::from(vec![1u8, 0xFF]).next().to_vec(), vec![2u8]);
    assert_eq!(ByteSequence::from(vec![0xFFu8, 0x10, 0xFF, 0xFF]).next().to_vec(), vec![0xFFu8, 0x11]);
    assert_eq!(ByteSequence::from("a\u{0}").next().to_vec(), vec![0x61u8, 1]);
}

#[test]
fn next_is_not_an_involution() {
    let k = ByteSequence::from("abc");
    assert_ne!(k.next().next(), k);
    assert_eq!(k.next().next(), ByteSequence::from("abe"));
}

#[test]
fn next_leaves_its_argument_alone() {
    let k = ByteSequence::from("ab\u{7f}");
    let _ = k.next();
    assert_eq!(k.as_bytes(), b"ab\x7f");
}

#[test]
fn conversions_keep_the_bytes() {
    assert_eq!(ByteSequence::from("héllo").to_vec(), "héllo".as_bytes().to_vec());
    assert_eq!(ByteSequence::from(String::from("key")).as_bytes(), b"key");
    assert_eq!(ByteSequence::from(vec![1u8, 2, 3]).into_vec(), vec![1u8, 2, 3]);
    assert_eq!(ByteSequence::from(b"xyz" as &[u8]).clone().to_vec(), b"xyz".to_vec());
    assert_eq!(ByteSequence::from("\0").as_bytes(), &[0u8]);
    assert!(!ByteSequence::from("\0").is_empty());
}

#[test]
fn append_joins_the_bytes() {
    let ns = ByteSequence::from("ns/");
    let key = ByteSequence::from("k");
    assert_eq!(ns.append(&key).as_bytes(), b"ns/k");
    assert_eq!(ns.append(&ByteSequence::empty()), ns);
    assert_eq!(ByteSequence::empty().append(&key), key);
}

fn sample_keys() -> Vec<Vec<u8>> {
    let bytes = [0x00u8, 0x01, 0x61, 0xFE, 0xFF];
    let mut keys: Vec<Vec<u8>> = vec![vec![]];
    for a in bytes {
        keys.push(vec![a]);
        for b in bytes {
            keys.push(vec![a, b]);
            for c in bytes {
                keys.push(vec![a, b, c]);
            }
        }
    }
    keys
}

#[test]
fn keys_up_to_the_successor_are_the_keys_with_the_prefix() {
    let keys = sample_keys();
    for k in keys.iter() {
        let end = ByteSequence::from(k.clone()).next().into_vec();
        for x in keys.iter() {
            let in_range = k <= x && (end.is_empty() || x < &end);
            assert_eq!(in_range, x.starts_with(k), "k = {:?}, x = {:?}", k, x);
        }
    }
}

#[test]
fn successor_is_empty_exactly_for_all_max_keys() {
    for k in sample_keys() {
        let all_max = k.iter().all(|b| *b == 0xFF);
        assert_eq!(ByteSequence::from(k.clone()).next().is_empty(), all_max, "k = {:?}", k);
    }
}

#[test]
fn successor_under_a_prefix() {
    for p in sample_keys() {
        for k in sample_keys() {
            let joined = ByteSequence::from(p.clone()).append(&ByteSequence::from(k.clone()));
            let all_max = k.iter().all(|b| *b == 0xFF);
            let expected = if all_max {
                ByteSequence::from(p.clone()).next()
            } else {
                ByteSequence::from(p.clone()).append(&ByteSequence::from(k.clone()).next())
            };
            assert_eq!(joined.next(), expected);
        }
    }
}

#[test]
fn successor_comes_after_the_key_and_never_leads_back() {
    for k in sample_keys() {
        if k.iter().all(|b| *b == 0xFF) {
            continue;
        }
        let key = ByteSequence::from(k.clone());
        let next = key.next();
        assert!(k < next.to_vec(), "k = {:?}", k);
        assert_ne!(next.next(), key);
    }
}
