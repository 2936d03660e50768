//! The polymorphic "compute my canonical digest" capability, implemented by
//! every committed type, and its base cases: raw byte strings, optional
//! values, and plain element sequences.

use vstd::prelude::*;
use vstd::slice::slice_index_get;
use crate::digest::{words_to_bytes, zero_words, Digest};
use crate::sha::Sha256;

verus! {

broadcast use crate::digest::lemma_digest_len;

/// Digest computation over an abstract hashing backend `S`, deterministic
/// and side-effect-free. Composite record types implement it by tagged
/// hashing with a fixed, type-specific tag and field order, both part of
/// the wire contract.
#[allow(non_camel_case_types)]
pub trait risc0_binfmt_Digestible<S: Sha256> {
    /// The words of the value's canonical digest.
    spec fn spec_digest(&self) -> Seq<u32>;

    /// Calculate a collision resistant hash for the typed and structured
    /// data.
    fn digest(&self) -> (r: Digest)
        ensures
            r@ == self.spec_digest(),
    ;
}

/// The digest of a sequence of element digests: a right fold seeded with
/// the all-zero digest, hashing the accumulator's bytes followed by the
/// element's digest bytes at each step. Unlike the tagged list digest this
/// carries no tag and no count: it is not domain separated, the digest of
/// an empty sequence is the all-zero digest, and anyone holding the digest
/// of a list can extend that list at the front. Kept exactly as is, since
/// committed digests depend on it.
pub open spec fn spec_digest_list<S: Sha256>(items: Seq<Seq<u32>>) -> Seq<u32>
    decreases items.len(),
{
    if items.len() == 0 {
        zero_words()
    } else {
        S::spec_hash_bytes(
            words_to_bytes(spec_digest_list::<S>(items.drop_first())) + words_to_bytes(items[0]),
        )
    }
}

/// A byte string digests to its direct hash, with no tag: the only
/// untagged digest in the system, used for leaf content.
impl<S: Sha256> risc0_binfmt_Digestible<S> for Vec<u8> {
    open spec fn spec_digest(&self) -> Seq<u32> {
        S::spec_hash_bytes(self@)
    }

    fn digest(&self) -> (r: Digest) {
        S::hash_bytes(self.as_slice())
    }
}

/// A default incremental hashing algorithm for a slice of digestible
/// elements; see [`spec_digest_list`] for its stated limitations.
impl<S: Sha256, D: risc0_binfmt_Digestible<S>> risc0_binfmt_Digestible<S> for [D] {
    open spec fn spec_digest(&self) -> Seq<u32> {
        spec_digest_list::<S>(
            self@.map_values(|d: D| <D as risc0_binfmt_Digestible<S>>::spec_digest(&d)),
        )
    }

    fn digest(&self) -> (r: Digest) {
        let ghost item_words = self@.map_values(
            |d: D| <D as risc0_binfmt_Digestible<S>>::spec_digest(&d),
        );
        let mut accum = Digest::zero();
        let mut i: usize = self.len();
        while i > 0
            invariant
                i <= self@.len(),
                item_words == self@.map_values(
                    |d: D| <D as risc0_binfmt_Digestible<S>>::spec_digest(&d),
                ),
                accum@ == spec_digest_list::<S>(item_words.skip(i as int)),
            decreases i,
        {
            i = i - 1;
            let item_digest = slice_index_get(self, i).digest();
            let mut bytes = accum.as_bytes();
            let mut ib = item_digest.as_bytes();
            bytes.append(&mut ib);
            accum = S::hash_bytes(bytes.as_slice());
            proof {
                assert(item_words.skip(i as int).drop_first() =~= item_words.skip(i + 1));
                assert(item_words.skip(i as int)[0] == item_words[i as int]);
            }
        }
        proof {
            assert(item_words.skip(0) =~= item_words);
        }
        accum
    }
}

/// An optional value digests to its value's digest when present and to the
/// all-zero digest when absent.
impl<S: Sha256, T: risc0_binfmt_Digestible<S>> risc0_binfmt_Digestible<S> for Option<T> {
    open spec fn spec_digest(&self) -> Seq<u32> {
        match self {
            Some(val) => <T as risc0_binfmt_Digestible<S>>::spec_digest(val),
            None => zero_words(),
        }
    }

    fn digest(&self) -> (r: Digest) {
        match self {
            Some(val) => val.digest(),
            None => Digest::zero(),
        }
    }
}

} // verus!
