//! The abstract SHA-256 hashing capability that every hashing routine in
//! this crate consumes. A backend supplies the concrete operations; each
//! backend fixes its own abstract hash functions, and all contracts in this
//! crate are stated against those functions, so two calls on equal input
//! yield equal digests for a given backend.

use vstd::prelude::*;
use crate::digest::{Digest, words_to_bytes};

verus! {

/// Number of 32-bit words in one compression block.
pub const BLOCK_WORDS: usize = 16;

/// One 64-byte compression block, stored as sixteen 32-bit words.
#[derive(Clone, Copy, Debug, PartialEq, Eq, Hash)]
pub struct Block([u32; BLOCK_WORDS]);

impl View for Block {
    type V = Seq<u32>;

    closed spec fn view(&self) -> Seq<u32> {
        self.0@
    }
}

impl Block {
    /// Builds a block from its sixteen words.
    pub fn new(data: [u32; BLOCK_WORDS]) -> (b: Block)
        ensures
            b@ == data@,
    {
        Block(data)
    }

    /// The block as a slice of its sixteen words.
    pub fn as_words(&self) -> (r: &[u32])
        ensures
            r@ == self@,
    {
        self.0.as_slice()
    }
}

/// The SHA-256 initialization vector, stored so that the digest's byte
/// rendering equals the big-endian bytes of the eight standard constants.
pub fn sha256_init() -> (d: Digest)
    ensures
        d@ == sha256_init_words(),
{
    let d = Digest::new([
        0x67e6096a_u32,
        0x85ae67bb_u32,
        0x72f36e3c_u32,
        0x3af54fa5_u32,
        0x7f520e51_u32,
        0x8c68059b_u32,
        0xabd9831f_u32,
        0x19cde05b_u32,
    ]);
    proof {
        assert(d@ =~= sha256_init_words());
    }
    d
}

/// The words of [`sha256_init`].
pub open spec fn sha256_init_words() -> Seq<u32> {
    seq![
        0x67e6096a_u32,
        0x85ae67bb_u32,
        0x72f36e3c_u32,
        0x3af54fa5_u32,
        0x7f520e51_u32,
        0x8c68059b_u32,
        0xabd9831f_u32,
        0x19cde05b_u32,
    ]
}

/// The SHA-256-family hashing capability.
///
/// A backend implements the operations below; it is external to this crate
/// and outside the scope of its proofs. What the crate relies on is recorded
/// here: `spec_hash_bytes` and `spec_compress` are the backend's abstract
/// hash and block-compression functions, every operation is deterministic
/// and side-effect-free, and the derived operations relate to the primitive
/// ones exactly as their contracts state (`hash_words` hashes the words'
/// little-endian byte rendering, `hash_pair` is one compression step from
/// the SHA-256 initialization vector, `compress_slice` iterates `compress`
/// over the blocks in order).
pub trait Sha256: Sized {
    /// The backend's abstract hash function from a byte string to the
    /// eight words of a digest.
    spec fn spec_hash_bytes(bytes: Seq<u8>) -> Seq<u32>;

    /// The backend's abstract compression function: one compression step
    /// on a 512-bit block given as two half-blocks of eight words each.
    spec fn spec_compress(state: Seq<u32>, half1: Seq<u32>, half2: Seq<u32>) -> Seq<u32>;

    /// The backend's abstract non-standard hash of raw words: the words'
    /// bytes padded to block size without the standard trailer, then
    /// compressed; used only for internal framing, never for
    /// standards-compliant hashing.
    spec fn spec_hash_raw_words(words: Seq<u32>) -> Seq<u32>;

    /// Hashes a byte string, with standard padding and trailer.
    fn hash_bytes(bytes: &[u8]) -> (r: Digest)
        ensures
            r@ == Self::spec_hash_bytes(bytes@),
    ;

    /// Hashes a word slice: the hash of the words' little-endian byte
    /// rendering.
    fn hash_words(words: &[u32]) -> (r: Digest)
        ensures
            r@ == Self::spec_hash_bytes(words_to_bytes(words@)),
    ;

    /// One compression step. The result is not a standards-compliant hash
    /// of any known preimage.
    fn compress(state: &Digest, block_half1: &Digest, block_half2: &Digest) -> (r: Digest)
        ensures
            r@ == Self::spec_compress(state@, block_half1@, block_half2@),
    ;

    /// Hashes a pair of digests: one compression step from the SHA-256
    /// initialization vector.
    fn hash_pair(a: &Digest, b: &Digest) -> (r: Digest)
        ensures
            r@ == Self::spec_compress(sha256_init_words(), a@, b@),
    ;

    /// Iterated compression over full blocks, in order.
    fn compress_slice(state: &Digest, blocks: &[Block]) -> (r: Digest)
        ensures
            r@ == spec_compress_blocks(
                |s: Seq<u32>, h1: Seq<u32>, h2: Seq<u32>| Self::spec_compress(s, h1, h2),
                state@,
                blocks@.map_values(|b: Block| b@),
            ),
    ;

    /// Hashes raw words with zero padding to block size and no standard
    /// trailer; not a standards-compliant hash.
    fn hash_raw_data_slice(data: &[u32]) -> (r: Digest)
        ensures
            r@ == Self::spec_hash_raw_words(data@),
    ;
}

/// Folds a compression function over a sequence of blocks, splitting each
/// block into its two eight-word halves.
pub open spec fn spec_compress_blocks(
    compress: spec_fn(Seq<u32>, Seq<u32>, Seq<u32>) -> Seq<u32>,
    state: Seq<u32>,
    blocks: Seq<Seq<u32>>,
) -> Seq<u32>
    decreases blocks.len(),
{
    if blocks.len() == 0 {
        state
    } else {
        spec_compress_blocks(
            compress,
            compress(state, blocks[0].subrange(0, 8), blocks[0].subrange(8, 16)),
            blocks.drop_first(),
        )
    }
}

} // verus!
