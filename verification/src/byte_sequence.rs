//! Byte-string keys and their lexicographic successor.

use vstd::prelude::*;
use vstd::std_specs::cmp::PartialEqSpecImpl;
use vstd::std_specs::convert::FromSpecImpl;
use vstd::string::StrSliceExecFns;
use vstd::slice::slice_to_vec;

verus! {

/// The largest value a byte can hold; such a byte cannot be incremented.
pub const MAX_BYTE: u8 = 0xFF;

/// The successor key of `k`: trailing `0xFF` bytes are dropped and the last
/// remaining byte is incremented. A key made only of `0xFF` bytes (the empty
/// key among them) has the empty key as its successor, which stands for "no
/// upper bound".
pub open spec fn spec_next(k: Seq<u8>) -> Seq<u8>
    decreases k.len(),
{
    if k.len() == 0 {
        Seq::<u8>::empty()
    } else if k.last() == MAX_BYTE {
        spec_next(k.drop_last())
    } else {
        k.drop_last().push((k.last() + 1) as u8)
    }
}

/// Whether every byte of `k` is `0xFF`. The empty key qualifies.
pub open spec fn all_max(k: Seq<u8>) -> bool {
    forall|i: int| 0 <= i < k.len() ==> k[i] == MAX_BYTE
}

/// An immutable sequence of bytes used as a key, a value or a range bound.
/// Two sequences are equal when they hold the same bytes.
#[derive(Debug, Eq)]
pub struct ByteSequence {
    inner: Vec<u8>,
}

impl View for ByteSequence {
    type V = Seq<u8>;

    closed spec fn view(&self) -> Seq<u8> {
        self.inner@
    }
}

impl PartialEq for ByteSequence {
    fn eq(&self, other: &Self) -> (r: bool) {
        if self.inner.len() != other.inner.len() {
            return false;
        }
        let mut i: usize = 0;
        while i < self.inner.len()
            invariant
                i <= self.inner@.len(),
                self.inner@.len() == other.inner@.len(),
                forall|j: int| 0 <= j < i ==> self.inner@[j] == other.inner@[j],
            decreases self.inner@.len() - i,
        {
            if self.inner[i] != other.inner[i] {
                return false;
            }
            i = i + 1;
        }
        assert(self.inner@ =~= other.inner@);
        true
    }
}

impl PartialEqSpecImpl for ByteSequence {
    open spec fn obeys_eq_spec() -> bool {
        true
    }

    open spec fn eq_spec(&self, other: &Self) -> bool {
        self@ == other@
    }
}

impl Clone for ByteSequence {
    fn clone(&self) -> (r: Self)
        ensures
            r@ == self@,
    {
        ByteSequence { inner: self.inner.clone() }
    }
}

impl ByteSequence {
    /// The bytes of the sequence, borrowed.
    pub fn as_bytes(&self) -> (r: &[u8])
        ensures
            r@ == self@,
    {
        self.inner.as_slice()
    }

    /// The zero-length sequence.
    pub fn empty() -> (r: Self)
        ensures
            r@ == Seq::<u8>::empty(),
    {
        ByteSequence { inner: Vec::new() }
    }

    /// The successor key, as `spec_next` defines it.
    pub fn next(&self) -> (r: Self)
        ensures
            r@ == spec_next(self@),
    {
        let mut i: usize = self.inner.len();
        assert(self@.subrange(0, i as int) =~= self@);
        while i > 0
            invariant
                i <= self.inner@.len(),
                spec_next(self@) == spec_next(self@.subrange(0, i as int)),
            decreases i,
        {
            let ghost head = self@.subrange(0, i as int);
            let b: u8 = self.inner[i - 1];
            if b != MAX_BYTE {
                let mut end = self.inner.clone();
                end.set(i - 1, b + 1);
                end.truncate(i);
                assert(end@ =~= head.drop_last().push((head.last() + 1) as u8));
                return ByteSequence { inner: end };
            }
            assert(head.drop_last() =~= self@.subrange(0, i - 1));
            i = i - 1;
        }
        ByteSequence::empty()
    }

    /// An owned copy of the bytes.
    pub fn to_vec(&self) -> (r: Vec<u8>)
        ensures
            r@ == self@,
    {
        self.inner.clone()
    }

    /// The bytes of `self` followed by the bytes of `other`.
    pub fn append(&self, other: &ByteSequence) -> (r: Self)
        ensures
            r@ == self@ + other@,
    {
        let mut joined = self.inner.clone();
        let mut tail = other.inner.clone();
        joined.append(&mut tail);
        ByteSequence { inner: joined }
    }

    /// Whether the sequence holds no byte at all.
    pub fn is_empty(&self) -> (r: bool)
        ensures
            r == (self@.len() == 0),
    {
        self.inner.len() == 0
    }

    /// Takes ownership of the bytes.
    pub fn into_vec(self) -> (r: Vec<u8>)
        ensures
            r@ == self@,
    {
        self.inner
    }
}

// Each conversion below is specified by the `ensures` of its `from`, over the
// view of the result; `from_spec` is left unused because a byte sequence
// cannot be written down as a value in a specification.
impl From<&str> for ByteSequence {
    /// The UTF-8 encoding of the text.
    fn from(value: &str) -> (r: Self)
        ensures
            r@ == vstd::utf8::encode_utf8(value@),
    {
        ByteSequence { inner: value.as_bytes_vec() }
    }
}

impl FromSpecImpl<&str> for ByteSequence {
    open spec fn obeys_from_spec() -> bool {
        false
    }

    open spec fn from_spec(value: &str) -> Self {
        arbitrary()
    }
}

impl From<Vec<u8>> for ByteSequence {
    fn from(value: Vec<u8>) -> (r: Self)
        ensures
            r@ == value@,
    {
        ByteSequence { inner: value }
    }
}

impl FromSpecImpl<Vec<u8>> for ByteSequence {
    open spec fn obeys_from_spec() -> bool {
        false
    }

    open spec fn from_spec(value: Vec<u8>) -> Self {
        arbitrary()
    }
}

impl From<String> for ByteSequence {
    /// The UTF-8 encoding of the text.
    fn from(value: String) -> (r: Self)
        ensures
            r@ == vstd::utf8::encode_utf8(value@),
    {
        ByteSequence { inner: value.as_str().as_bytes_vec() }
    }
}

impl FromSpecImpl<String> for ByteSequence {
    open spec fn obeys_from_spec() -> bool {
        false
    }

    open spec fn from_spec(value: String) -> Self {
        arbitrary()
    }
}

impl From<&[u8]> for ByteSequence {
    fn from(value: &[u8]) -> (r: Self)
        ensures
            r@ == value@,
    {
        ByteSequence { inner: slice_to_vec(value) }
    }
}

impl FromSpecImpl<&[u8]> for ByteSequence {
    open spec fn obeys_from_spec() -> bool {
        false
    }

    open spec fn from_spec(value: &[u8]) -> Self {
        arbitrary()
    }
}

impl From<ByteSequence> for Vec<u8> {
    fn from(value: ByteSequence) -> (r: Vec<u8>)
        ensures
            r@ == value@,
    {
        value.inner
    }
}

impl FromSpecImpl<ByteSequence> for Vec<u8> {
    open spec fn obeys_from_spec() -> bool {
        false
    }

    open spec fn from_spec(value: ByteSequence) -> Vec<u8> {
        arbitrary()
    }
}

/// The empty key is its own successor.
pub proof fn lemma_next_of_empty()
    ensures
        spec_next(Seq::<u8>::empty()) == Seq::<u8>::empty(),
{
}

/// A key made only of `0xFF` bytes has the empty key as its successor.
pub proof fn lemma_next_of_all_max(k: Seq<u8>)
    requires
        all_max(k),
    ensures
        spec_next(k) == Seq::<u8>::empty(),
    decreases k.len(),
{
    if k.len() > 0 {
        assert(k.last() == MAX_BYTE);
        lemma_next_of_all_max(k.drop_last());
    }
}

/// For a key with at least one byte below `0xFF`, the successor keeps a
/// non-empty prefix of the key, agrees with the key on all of that prefix but
/// its last byte, holds there the key's byte plus one, and what the key has
/// beyond the prefix is `0xFF` throughout.
pub proof fn lemma_next_increments_last_retained(k: Seq<u8>)
    requires
        !all_max(k),
    ensures
        0 < spec_next(k).len() <= k.len(),
        spec_next(k).drop_last() == k.subrange(0, spec_next(k).len() - 1),
        k[spec_next(k).len() - 1] != MAX_BYTE,
        spec_next(k).last() == k[spec_next(k).len() - 1] + 1,
        all_max(k.subrange(spec_next(k).len() as int, k.len() as int)),
    decreases k.len(),
{
    if k.last() == MAX_BYTE {
        let head = k.drop_last();
        assert(!all_max(head)) by {
            if all_max(head) {
                assert forall|i: int| 0 <= i < k.len() implies k[i] == MAX_BYTE by {
                    if i < head.len() {
                        assert(head[i] == k[i]);
                    }
                }
            }
        }
        lemma_next_increments_last_retained(head);
        let n = spec_next(k);
        assert(n.drop_last() =~= k.subrange(0, n.len() - 1));
        assert(head[n.len() - 1] == k[n.len() - 1]);
        assert forall|i: int| 0 <= i < k.len() - n.len() implies k.subrange(
            n.len() as int,
            k.len() as int,
        )[i] == MAX_BYTE by {
            if i < head.len() - n.len() {
                assert(head.subrange(n.len() as int, head.len() as int)[i] == k[n.len() + i]);
            }
        }
    } else {
        let n = spec_next(k);
        assert(n.drop_last() =~= k.subrange(0, n.len() - 1));
    }
}

/// The successor of a key under a prefix: where the key has a byte below
/// `0xFF` the prefix is untouched, and where it has none the successor is that
/// of the prefix alone.
pub proof fn lemma_next_of_concat(prefix: Seq<u8>, k: Seq<u8>)
    ensures
        spec_next(prefix + k) == if all_max(k) {
            spec_next(prefix)
        } else {
            prefix + spec_next(k)
        },
    decreases k.len(),
{
    if k.len() == 0 {
        assert(prefix + k =~= prefix);
    } else {
        let whole = prefix + k;
        assert(whole.last() == k.last());
        assert(whole.drop_last() =~= prefix + k.drop_last());
        if k.last() == MAX_BYTE {
            lemma_next_of_concat(prefix, k.drop_last());
            assert(all_max(k) == all_max(k.drop_last())) by {
                if all_max(k.drop_last()) {
                    assert forall|i: int| 0 <= i < k.len() implies k[i] == MAX_BYTE by {
                        if i < k.len() - 1 {
                            assert(k.drop_last()[i] == k[i]);
                        }
                    }
                }
                if all_max(k) {
                    assert forall|i: int| 0 <= i < k.drop_last().len() implies k.drop_last()[i]
                        == MAX_BYTE by {
                        assert(k.drop_last()[i] == k[i]);
                    }
                }
            }
        } else {
            assert(!all_max(k));
            assert(prefix + k.drop_last().push((k.last() + 1) as u8) =~= (prefix
                + k.drop_last()).push((k.last() + 1) as u8));
        }
    }
}

/// A successor that is not empty ends in a byte above zero.
pub proof fn lemma_next_ends_above_zero(k: Seq<u8>)
    requires
        spec_next(k).len() > 0,
    ensures
        spec_next(k).last() > 0,
    decreases k.len(),
{
    if k.len() > 0 && k.last() == MAX_BYTE {
        lemma_next_ends_above_zero(k.drop_last());
    }
}

/// Only a key made of `0xFF` bytes alone has the empty key as its successor.
pub proof fn lemma_next_empty_only_for_all_max(k: Seq<u8>)
    requires
        spec_next(k).len() == 0,
    ensures
        all_max(k),
    decreases k.len(),
{
    if k.len() > 0 {
        lemma_next_empty_only_for_all_max(k.drop_last());
        assert forall|i: int| 0 <= i < k.len() implies k[i] == MAX_BYTE by {
            if i < k.len() - 1 {
                assert(k.drop_last()[i] == k[i]);
            }
        }
    }
}

} // verus!
