//! The byte-wise lexicographic order of keys, and what the successor of a key
//! means in it: the keys from a key up to its successor are the keys that
//! start with it.

use vstd::prelude::*;
use crate::byte_sequence::{all_max, lemma_next_of_concat, spec_next, MAX_BYTE};

verus! {

/// Whether `a` comes strictly before `b` in byte-wise lexicographic order.
pub open spec fn lex_lt(a: Seq<u8>, b: Seq<u8>) -> bool
    decreases a.len(),
{
    if b.len() == 0 {
        false
    } else if a.len() == 0 {
        true
    } else if a[0] != b[0] {
        a[0] < b[0]
    } else {
        lex_lt(a.drop_first(), b.drop_first())
    }
}

/// Whether `a` is `b` or comes before it.
pub open spec fn lex_le(a: Seq<u8>, b: Seq<u8>) -> bool {
    a == b || lex_lt(a, b)
}

/// Whether the key `x` starts with `k`.
pub open spec fn has_prefix(x: Seq<u8>, k: Seq<u8>) -> bool {
    k.len() <= x.len() && x.subrange(0, k.len() as int) == k
}

/// Whether the key `x` lies in the range that starts at `start` and ends
/// before `end`, where an empty `end` sets no upper bound.
pub open spec fn in_range(x: Seq<u8>, start: Seq<u8>, end: Seq<u8>) -> bool {
    lex_le(start, x) && (end.len() == 0 || lex_lt(x, end))
}

proof fn lemma_split_first(s: Seq<u8>)
    requires
        s.len() > 0,
    ensures
        s == seq![s[0]] + s.drop_first(),
{
    assert(s =~= seq![s[0]] + s.drop_first());
}

proof fn lemma_all_max_split(k: Seq<u8>)
    requires
        k.len() > 0,
    ensures
        all_max(k) <==> k[0] == MAX_BYTE && all_max(k.drop_first()),
{
    let rest = k.drop_first();
    if all_max(k) {
        assert forall|i: int| 0 <= i < rest.len() implies rest[i] == MAX_BYTE by {
            assert(rest[i] == k[i + 1]);
        }
    }
    if k[0] == MAX_BYTE && all_max(rest) {
        assert forall|i: int| 0 <= i < k.len() implies k[i] == MAX_BYTE by {
            if i > 0 {
                assert(rest[i - 1] == k[i]);
            }
        }
    }
}

proof fn lemma_has_prefix_split(x: Seq<u8>, k: Seq<u8>)
    requires
        x.len() > 0,
        k.len() > 0,
    ensures
        has_prefix(x, k) <==> x[0] == k[0] && has_prefix(x.drop_first(), k.drop_first()),
{
    let xs = x.drop_first();
    let rest = k.drop_first();
    if has_prefix(x, k) {
        assert(x.subrange(0, k.len() as int)[0] == k[0]);
        assert(xs.subrange(0, rest.len() as int) =~= rest) by {
            assert forall|i: int| 0 <= i < rest.len() implies xs.subrange(0, rest.len() as int)[i]
                == rest[i] by {
                assert(x.subrange(0, k.len() as int)[i + 1] == k[i + 1]);
            }
        }
    }
    if x[0] == k[0] && has_prefix(xs, rest) {
        assert(x.subrange(0, k.len() as int) =~= k) by {
            assert forall|i: int| 0 <= i < k.len() implies x.subrange(0, k.len() as int)[i]
                == k[i] by {
                if i > 0 {
                    assert(xs.subrange(0, rest.len() as int)[i - 1] == rest[i - 1]);
                }
            }
        }
    }
}

proof fn lemma_eq_split(x: Seq<u8>, k: Seq<u8>)
    requires
        x.len() > 0,
        k.len() > 0,
    ensures
        k == x <==> k[0] == x[0] && k.drop_first() == x.drop_first(),
{
    if k[0] == x[0] && k.drop_first() == x.drop_first() {
        lemma_split_first(x);
        lemma_split_first(k);
    }
}

/// The keys that start with `k` are the keys of the range from `k` up to the
/// successor of `k`. Where `k` has no byte below `0xFF` the successor is
/// empty, and the range has no upper bound.
pub proof fn lemma_prefix_range(k: Seq<u8>, x: Seq<u8>)
    ensures
        has_prefix(x, k) <==> in_range(x, k, spec_next(k)),
        all_max(k) <==> spec_next(k).len() == 0,
    decreases k.len(),
{
    if k.len() == 0 {
        assert(x.subrange(0, 0) =~= k);
        assert(x.len() == 0 ==> x =~= k);
    } else {
        let c = k[0];
        let rest = k.drop_first();
        lemma_split_first(k);
        lemma_all_max_split(k);
        lemma_next_of_concat(seq![c], rest);
        assert(seq![c].drop_last() =~= Seq::<u8>::empty());
        assert(seq![c].last() == c);
        assert(spec_next(Seq::<u8>::empty()) =~= Seq::<u8>::empty());
        assert(spec_next(seq![c]) =~= if c == MAX_BYTE {
            Seq::<u8>::empty()
        } else {
            seq![(c + 1) as u8]
        });
        if x.len() == 0 {
            assert(!lex_lt(k, x));
            assert(!has_prefix(x, k));
            assert(k != x);
        } else {
            let d = x[0];
            let xs = x.drop_first();
            lemma_prefix_range(rest, xs);
            lemma_has_prefix_split(x, k);
            lemma_eq_split(x, k);
            let n = spec_next(k);
            assert(lex_lt(k, x) == if c != d {
                c < d
            } else {
                lex_lt(rest, xs)
            });
            if !all_max(rest) {
                assert(n == seq![c] + spec_next(rest));
                assert(n.len() > 0);
                assert(n[0] == c);
                assert(n.drop_first() =~= spec_next(rest));
                assert(lex_lt(x, n) == if d != c {
                    d < c
                } else {
                    lex_lt(xs, spec_next(rest))
                });
            } else if c != MAX_BYTE {
                assert(n =~= seq![(c + 1) as u8]);
                assert(n[0] == c + 1);
                assert(n.drop_first().len() == 0);
                assert(!lex_lt(xs, n.drop_first()));
                assert(lex_lt(x, n) == (d <= c));
            } else {
                assert(n.len() == 0);
            }
        }
    }
}

/// A key with a byte below `0xFF` comes strictly before its successor, and
/// taking the successor twice never leads back to it.
pub proof fn lemma_next_is_above(k: Seq<u8>)
    requires
        !all_max(k),
    ensures
        lex_lt(k, spec_next(k)),
        spec_next(k) != k,
        spec_next(spec_next(k)) != k,
{
    let n = spec_next(k);
    lemma_prefix_range(k, k);
    assert(k.subrange(0, k.len() as int) =~= k);
    lemma_lt_is_asymmetric(k, k);
    lemma_prefix_range(n, n);
    assert(n.subrange(0, n.len() as int) =~= n);
    if spec_next(n).len() > 0 {
        lemma_lt_is_asymmetric(k, n);
    } else {
        assert(k.len() > 0);
    }
}

proof fn lemma_lt_is_asymmetric(a: Seq<u8>, b: Seq<u8>)
    ensures
        !(lex_lt(a, b) && lex_lt(b, a)),
    decreases a.len(),
{
    if a.len() > 0 && b.len() > 0 {
        lemma_lt_is_asymmetric(a.drop_first(), b.drop_first());
    }
}

proof fn lemma_concat_split(n: Seq<u8>, s: Seq<u8>)
    requires
        n.len() > 0,
    ensures
        (n + s).len() > 0,
        (n + s)[0] == n[0],
        (n + s).drop_first() == n.drop_first() + s,
{
    assert((n + s).drop_first() =~= n.drop_first() + s);
}

/// A key that is not below an extension of `n` is not below `n` either.
pub proof fn lemma_le_of_extension(n: Seq<u8>, s: Seq<u8>, x: Seq<u8>)
    requires
        lex_le(n + s, x),
    ensures
        lex_le(n, x),
    decreases n.len(),
{
    if n.len() == 0 {
        assert(x.len() == 0 ==> x =~= n);
    } else {
        lemma_concat_split(n, s);
        if x.len() > 0 {
            lemma_eq_split(x, n + s);
            lemma_eq_split(x, n);
            if n[0] == x[0] {
                assert(lex_le(n.drop_first() + s, x.drop_first()));
                lemma_le_of_extension(n.drop_first(), s, x.drop_first());
            }
        } else {
            assert(n + s != x);
        }
    }
}

/// Among the keys that start with `n`, those from `n ++ [0]` on are the ones
/// longer than `n`: every key of the sub-keyspace but `n` itself.
pub proof fn lemma_extension_by_zero_is_least(n: Seq<u8>, x: Seq<u8>)
    requires
        has_prefix(x, n),
    ensures
        lex_le(n + seq![0u8], x) <==> x.len() > n.len(),
    decreases n.len(),
{
    let zero = seq![0u8];
    if n.len() == 0 {
        assert(n + zero =~= zero);
        assert(zero.drop_first() =~= Seq::<u8>::empty());
        if x.len() > 0 {
            assert(lex_lt(zero, x) == if 0u8 != x[0] {
                0u8 < x[0]
            } else {
                lex_lt(zero.drop_first(), x.drop_first())
            });
            if x[0] == 0 {
                if x.drop_first().len() == 0 {
                    assert(x =~= zero);
                } else {
                    assert(lex_lt(zero.drop_first(), x.drop_first()));
                }
            }
            assert(lex_le(zero, x));
        } else {
            assert(zero != x);
            assert(!lex_lt(zero, x));
        }
    } else {
        let nz = n + zero;
        let xs = x.drop_first();
        lemma_concat_split(n, zero);
        assert(x.len() > 0);
        lemma_has_prefix_split(x, n);
        lemma_eq_split(x, nz);
        lemma_extension_by_zero_is_least(n.drop_first(), xs);
        assert(nz[0] == x[0]);
        assert(lex_lt(nz, x) == lex_lt(nz.drop_first(), xs));
        assert(lex_le(nz, x) == lex_le(n.drop_first() + zero, xs));
    }
}

/// The range from `n ++ [0]` up to the successor of `n` holds the keys that
/// start with `n` and go on beyond it, and no others.
pub proof fn lemma_sub_keyspace_range(n: Seq<u8>, x: Seq<u8>)
    ensures
        in_range(x, n + seq![0u8], spec_next(n)) <==> has_prefix(x, n) && x.len() > n.len(),
{
    lemma_prefix_range(n, x);
    if lex_le(n + seq![0u8], x) {
        lemma_le_of_extension(n, seq![0u8], x);
    }
    if has_prefix(x, n) {
        lemma_extension_by_zero_is_least(n, x);
    }
}

} // verus!
