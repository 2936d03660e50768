//! The fixed-size digest value that every hashing operation produces and
//! consumes, together with the little-endian byte model of word sequences.

use vstd::prelude::*;
use vstd::bytes::{lemma_auto_spec_u32_to_from_le_bytes, spec_u32_from_le_bytes,
    spec_u32_to_le_bytes, u32_from_le_bytes, u32_to_le_bytes};
use vstd::slice::slice_subrange;

verus! {

/// Number of 32-bit words in a digest.
pub const DIGEST_WORDS: usize = 8;

/// Number of bytes in a 32-bit word.
pub const WORD_SIZE: usize = 4;

/// Number of bytes in a digest.
pub const DIGEST_BYTES: usize = DIGEST_WORDS * WORD_SIZE;

/// The little-endian byte rendering of a sequence of 32-bit words: four
/// bytes per word, words in order. This is the byte view under which a
/// digest enters every hash computation.
pub open spec fn words_to_bytes(ws: Seq<u32>) -> Seq<u8>
    decreases ws.len(),
{
    if ws.len() == 0 {
        Seq::empty()
    } else {
        spec_u32_to_le_bytes(ws[0]) + words_to_bytes(ws.drop_first())
    }
}

/// The word sequence of an all-zero digest.
pub open spec fn zero_words() -> Seq<u32> {
    seq![0u32, 0u32, 0u32, 0u32, 0u32, 0u32, 0u32, 0u32]
}

pub proof fn lemma_words_to_bytes_len(ws: Seq<u32>)
    ensures
        words_to_bytes(ws).len() == 4 * ws.len(),
    decreases ws.len(),
{
    lemma_auto_spec_u32_to_from_le_bytes();
    if ws.len() > 0 {
        lemma_words_to_bytes_len(ws.drop_first());
    }
}

pub proof fn lemma_words_to_bytes_push(ws: Seq<u32>, w: u32)
    ensures
        words_to_bytes(ws.push(w)) == words_to_bytes(ws) + spec_u32_to_le_bytes(w),
    decreases ws.len(),
{
    lemma_auto_spec_u32_to_from_le_bytes();
    assert(ws.push(w)[0] == if ws.len() == 0 { w } else { ws[0] });
    if ws.len() == 0 {
        assert(ws.push(w).drop_first() =~= Seq::<u32>::empty());
        assert(words_to_bytes(ws.push(w)) == spec_u32_to_le_bytes(w) + words_to_bytes(
            Seq::<u32>::empty(),
        ));
        assert(words_to_bytes(ws.push(w)) =~= words_to_bytes(ws) + spec_u32_to_le_bytes(w));
    } else {
        assert(ws.push(w).drop_first() =~= ws.drop_first().push(w));
        lemma_words_to_bytes_push(ws.drop_first(), w);
        assert(words_to_bytes(ws.push(w)) == spec_u32_to_le_bytes(ws[0]) + words_to_bytes(
            ws.drop_first().push(w),
        ));
        assert(words_to_bytes(ws.push(w)) =~= words_to_bytes(ws) + spec_u32_to_le_bytes(w));
    }
}

/// Each word occupies its own four-byte window of the rendering.
pub proof fn lemma_words_to_bytes_subrange(ws: Seq<u32>, i: int)
    requires
        0 <= i < ws.len(),
    ensures
        words_to_bytes(ws).subrange(4 * i, 4 * i + 4) == spec_u32_to_le_bytes(ws[i]),
    decreases i,
{
    lemma_auto_spec_u32_to_from_le_bytes();
    lemma_words_to_bytes_len(ws);
    lemma_words_to_bytes_len(ws.drop_first());
    if i == 0 {
        assert(words_to_bytes(ws).subrange(0, 4) =~= spec_u32_to_le_bytes(ws[0]));
    } else {
        lemma_words_to_bytes_subrange(ws.drop_first(), i - 1);
        assert(words_to_bytes(ws).subrange(4 * i, 4 * i + 4) =~= words_to_bytes(
            ws.drop_first(),
        ).subrange(4 * (i - 1), 4 * (i - 1) + 4));
    }
}

/// Word sequences of equal length with the same byte rendering are equal:
/// the byte view loses no information.
pub proof fn lemma_words_to_bytes_injective(a: Seq<u32>, b: Seq<u32>)
    requires
        a.len() == b.len(),
        words_to_bytes(a) == words_to_bytes(b),
    ensures
        a == b,
{
    lemma_auto_spec_u32_to_from_le_bytes();
    assert forall|i: int| 0 <= i < a.len() implies a[i] == b[i] by {
        lemma_words_to_bytes_subrange(a, i);
        lemma_words_to_bytes_subrange(b, i);
        assert(spec_u32_to_le_bytes(a[i]).len() == 4);
        assert(spec_u32_to_le_bytes(b[i]).len() == 4);
        assert(spec_u32_from_le_bytes(spec_u32_to_le_bytes(a[i])) == a[i]);
        assert(spec_u32_from_le_bytes(spec_u32_to_le_bytes(b[i])) == b[i]);
    }
    assert(a =~= b);
}

/// A 32-byte digest, stored as eight 32-bit words. The byte view renders
/// each word in little-endian order, so the bytes handed to
/// [`Digest::from_bytes`] reappear unchanged from [`Digest::as_bytes`].
#[derive(Clone, Copy, Debug, PartialEq, Eq, PartialOrd, Ord, Hash)]
pub struct Digest([u32; DIGEST_WORDS]);

impl View for Digest {
    type V = Seq<u32>;

    closed spec fn view(&self) -> Seq<u32> {
        self.0@
    }
}

/// A digest always holds exactly eight words.
pub broadcast proof fn lemma_digest_len(d: Digest)
    ensures
        (#[trigger] d@).len() == DIGEST_WORDS,
{
}

impl Digest {
    /// The all-zero digest, the identity element for empty list digests.
    pub fn zero() -> (d: Digest)
        ensures
            d@ == zero_words(),
    {
        let d = Digest([0u32, 0u32, 0u32, 0u32, 0u32, 0u32, 0u32, 0u32]);
        proof {
            assert(d@ =~= zero_words());
        }
        d
    }

    /// Builds a digest from its eight words.
    pub fn new(data: [u32; DIGEST_WORDS]) -> (d: Digest)
        ensures
            d@ == data@,
    {
        Digest(data)
    }

    /// Builds a digest from its 32-byte rendering, for interop with
    /// externally produced digest literals.
    pub fn from_bytes(bytes: [u8; DIGEST_BYTES]) -> (d: Digest)
        ensures
            words_to_bytes(d@) == bytes@,
            forall|i: int|
                0 <= i < 8 ==> d@[i] == spec_u32_from_le_bytes(
                    bytes@.subrange(4 * i, 4 * i + 4),
                ),
    {
        let s = bytes.as_slice();
        let w0 = u32_from_le_bytes(slice_subrange(s, 0, 4));
        let w1 = u32_from_le_bytes(slice_subrange(s, 4, 8));
        let w2 = u32_from_le_bytes(slice_subrange(s, 8, 12));
        let w3 = u32_from_le_bytes(slice_subrange(s, 12, 16));
        let w4 = u32_from_le_bytes(slice_subrange(s, 16, 20));
        let w5 = u32_from_le_bytes(slice_subrange(s, 20, 24));
        let w6 = u32_from_le_bytes(slice_subrange(s, 24, 28));
        let w7 = u32_from_le_bytes(slice_subrange(s, 28, 32));
        let d = Digest([w0, w1, w2, w3, w4, w5, w6, w7]);
        proof {
            lemma_auto_spec_u32_to_from_le_bytes();
            lemma_words_to_bytes_len(d@);
            assert forall|k: int| 0 <= k < 32 implies #[trigger] words_to_bytes(d@)[k]
                == bytes@[k] by {
                let i = k / 4;
                lemma_words_to_bytes_subrange(d@, i);
                assert(spec_u32_to_le_bytes(d@[i]) == bytes@.subrange(4 * i, 4 * i + 4));
                assert(words_to_bytes(d@)[k] == words_to_bytes(d@).subrange(
                    4 * i,
                    4 * i + 4,
                )[k - 4 * i]);
                assert(bytes@[k] == bytes@.subrange(4 * i, 4 * i + 4)[k - 4 * i]);
            }
            assert(words_to_bytes(d@) =~= bytes@);
        }
        d
    }

    /// The digest as a slice of its eight words.
    pub fn as_words(&self) -> (r: &[u32])
        ensures
            r@ == self@,
    {
        self.0.as_slice()
    }

    /// The digest's 32-byte rendering.
    pub fn as_bytes(&self) -> (r: Vec<u8>)
        ensures
            r@ == words_to_bytes(self@),
    {
        words_to_le_bytes(self.0.as_slice())
    }
}

/// Renders a word slice as little-endian bytes, four per word.
pub fn words_to_le_bytes(words: &[u32]) -> (r: Vec<u8>)
    ensures
        r@ == words_to_bytes(words@),
{
    let mut out: Vec<u8> = Vec::new();
    let n = words.len();
    let mut i: usize = 0;
    while i < n
        invariant
            n == words@.len(),
            i <= n,
            out@ == words_to_bytes(words@.take(i as int)),
        decreases n - i,
    {
        let w = *vstd::slice::slice_index_get(words, i);
        let mut wb = u32_to_le_bytes(w);
        out.append(&mut wb);
        proof {
            assert(words@.take(i + 1) =~= words@.take(i as int).push(words@[i as int]));
            lemma_words_to_bytes_push(words@.take(i as int), words@[i as int]);
        }
        i = i + 1;
    }
    proof {
        assert(words@.take(n as int) =~= words@);
    }
    out
}

} // verus!
