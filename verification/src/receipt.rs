//! The polymorphic receipt envelope: proof containers over the claim
//! model, one per proof strategy, and the Merkle inclusion proof used to
//! bind a succinct proof to its control program.

use vstd::prelude::*;
use vstd::slice::slice_index_get;
use crate::claim::{MaybePruned, ReceiptClaim, Unknown};
use crate::digest::{words_to_bytes, words_to_le_bytes, Digest};
use crate::sha::{sha256_init_words, Sha256};

verus! {

broadcast use crate::digest::lemma_digest_len;

/// One proof for one execution segment: raw seal words plus the concrete
/// claim the segment proves.
#[derive(Clone, Debug, PartialEq)]
pub struct SegmentReceipt {
    /// The cryptographic data attesting to the validity of the code
    /// execution: opaque seal words consumed by a proof-system verifier.
    pub seal: Vec<u32>,
    /// Segment index within the [`Receipt`].
    pub index: u32,
    /// Name of the hash function used to create this receipt.
    pub hashfn: String,
    /// A digest of the verifier parameters that can be used to verify this
    /// receipt. A fingerprint of the proof system or circuit version, not
    /// the full parameters.
    pub verifier_parameters: Digest,
    /// [`ReceiptClaim`] containing information about the execution that
    /// this receipt proves.
    pub claim: ReceiptClaim,
}

impl SegmentReceipt {
    /// Return the seal for this receipt, as a vector of bytes.
    pub fn get_seal_bytes(&self) -> (r: Vec<u8>)
        ensures
            r@ == words_to_bytes(self.seal@),
    {
        words_to_le_bytes(self.seal.as_slice())
    }

    /// Number of bytes used by the seal for this receipt.
    pub fn seal_size(&self) -> (r: usize)
        requires
            4 * self.seal@.len() <= usize::MAX,
        ensures
            r == 4 * self.seal@.len(),
    {
        self.seal.len() * 4
    }
}

/// A sibling-path inclusion proof: the index of a leaf and the sibling
/// digests on the path from the leaf towards the root, root excluded.
#[derive(Clone, Debug, PartialEq)]
pub struct MerkleProof {
    /// Index of the leaf for which inclusion is being proven.
    pub index: u32,
    /// Sibling digests on the path from the root to the leaf.
    /// Does not include the root of the leaf.
    pub digests: Vec<Digest>,
}

/// The root recomputed from a leaf and a sibling path: at each level the
/// current digest is paired with the next sibling, on the left or the
/// right as the next bit of the index directs, and the index is halved.
pub open spec fn spec_merkle_root<S: Sha256>(index: u32, leaf: Seq<u32>, path: Seq<Seq<u32>>) -> Seq<
    u32,
>
    decreases path.len(),
{
    if path.len() == 0 {
        leaf
    } else {
        let next = if index % 2 == 0 {
            S::spec_compress(sha256_init_words(), leaf, path[0])
        } else {
            S::spec_compress(sha256_init_words(), path[0], leaf)
        };
        spec_merkle_root::<S>(index / 2, next, path.drop_first())
    }
}

impl MerkleProof {
    /// Recomputes the root this proof places the leaf under, combining the
    /// leaf with each sibling in path order by pairwise hashing. The caller
    /// is responsible for comparing the result against a trusted root;
    /// this routine makes no trust decision itself.
    pub fn root<S: Sha256>(&self, leaf: &Digest) -> (r: Digest)
        ensures
            r@ == spec_merkle_root::<S>(
                self.index,
                leaf@,
                self.digests@.map_values(|d: Digest| d@),
            ),
    {
        let ghost path_words = self.digests@.map_values(|d: Digest| d@);
        let mut index = self.index;
        let mut cur = *leaf;
        let n = self.digests.len();
        let mut i: usize = 0;
        proof {
            assert(path_words.skip(0) =~= path_words);
        }
        while i < n
            invariant
                n == self.digests@.len(),
                i <= n,
                path_words == self.digests@.map_values(|d: Digest| d@),
                spec_merkle_root::<S>(self.index, leaf@, path_words) == spec_merkle_root::<S>(
                    index,
                    cur@,
                    path_words.skip(i as int),
                ),
            decreases n - i,
        {
            let sibling = slice_index_get(self.digests.as_slice(), i);
            proof {
                assert(path_words.skip(i as int)[0] == path_words[i as int]);
                assert(path_words.skip(i as int).drop_first() =~= path_words.skip(i + 1));
            }
            cur = if index % 2 == 0 {
                S::hash_pair(&cur, sibling)
            } else {
                S::hash_pair(sibling, &cur)
            };
            index = index / 2;
            i = i + 1;
        }
        proof {
            assert(path_words.skip(n as int) =~= Seq::<Seq<u32>>::empty());
        }
        cur
    }
}

/// A single-STARK receipt: one seal proving the claim, bound to a control
/// program by a Merkle inclusion proof for its control identifier.
#[derive(Clone, Debug, PartialEq)]
pub struct SuccinctReceipt<Claim> {
    /// Opaque seal words of the STARK.
    pub seal: Vec<u32>,
    /// The identifier of the control program that validated the claim.
    pub control_id: Digest,
    /// The claim this receipt proves, possibly pruned.
    pub claim: MaybePruned<Claim>,
    /// Name of the hash function used to create this receipt.
    pub hashfn: String,
    /// A digest of the verifier parameters that can be used to verify this
    /// receipt.
    pub verifier_parameters: Digest,
    /// A Merkle inclusion proof for `control_id` under a control root.
    pub control_inclusion_proof: MerkleProof,
}

impl<Claim> SuccinctReceipt<Claim> {
    /// Return the seal for this receipt, as a vector of bytes.
    pub fn get_seal_bytes(&self) -> (r: Vec<u8>)
        ensures
            r@ == words_to_bytes(self.seal@),
    {
        words_to_le_bytes(self.seal.as_slice())
    }

    /// Number of bytes used by the seal for this receipt.
    pub fn seal_size(&self) -> (r: usize)
        requires
            4 * self.seal@.len() <= usize::MAX,
        ensures
            r == 4 * self.seal@.len(),
    {
        self.seal.len() * 4
    }

    /// The control root this receipt's inclusion proof places its control
    /// identifier under.
    pub fn control_root<S: Sha256>(&self) -> (r: Digest)
        ensures
            r@ == spec_merkle_root::<S>(
                self.control_inclusion_proof.index,
                self.control_id@,
                self.control_inclusion_proof.digests@.map_values(|d: Digest| d@),
            ),
    {
        self.control_inclusion_proof.root::<S>(&self.control_id)
    }
}

/// A single-SNARK receipt: a raw byte seal with the associated claim.
#[derive(Clone, Debug, PartialEq)]
pub struct Groth16Receipt<Claim> {
    /// A SNARK proof of a zkVM execution with the associated claim.
    pub seal: Vec<u8>,
    /// The claim this receipt proves, possibly pruned.
    pub claim: MaybePruned<Claim>,
    /// A digest of the verifier parameters that can be used to verify this
    /// receipt.
    pub verifier_parameters: Digest,
}

/// A receipt with no cryptographic material, a development-only stand-in.
#[derive(Clone, Debug, PartialEq)]
pub struct FakeReceipt<Claim> {
    /// Claim containing information about the computation that this
    /// receipt pretends to prove.
    pub claim: MaybePruned<Claim>,
}

/// A multi-segment, multi-assumption proof: one segment receipt per
/// continuation segment plus one supporting receipt per assumption.
#[derive(Debug)]
pub struct CompositeReceipt {
    /// Segment receipts forming the proof of an execution with
    /// continuations.
    pub segments: Vec<SegmentReceipt>,
    /// An ordered list of assumptions, either proven or unresolved, made
    /// within the continuation represented by the segment receipts. If any
    /// assumptions are unresolved, this receipt is only conditionally
    /// valid.
    pub assumption_receipts: Vec<InnerAssumptionReceipt>,
    /// A digest of the verifier parameters that can be used to verify this
    /// receipt.
    pub verifier_parameters: Digest,
}

/// The proof strategies backing an assumption's supporting receipt; the
/// claim shape of an assumption is intentionally unspecified.
#[derive(Debug)]
pub enum InnerAssumptionReceipt {
    /// A non-succinct [`CompositeReceipt`], made up of one inner receipt
    /// per segment and assumption.
    Composite(CompositeReceipt),
    /// A [`SuccinctReceipt`], proving the claim with a single STARK.
    Succinct(SuccinctReceipt<Unknown>),
    /// A [`Groth16Receipt`], proving the claim with a single SNARK.
    Groth16(Groth16Receipt<Unknown>),
    /// A [`FakeReceipt`], with no cryptographic integrity, used only for
    /// development.
    Fake(FakeReceipt<Unknown>),
}

/// The proof strategies backing a top-level receipt.
#[derive(Debug)]
pub enum InnerReceipt {
    /// A non-succinct [`CompositeReceipt`], made up of one inner receipt
    /// per segment.
    Composite(CompositeReceipt),
    /// A [`SuccinctReceipt`], proving arbitrarily long zkVM computations
    /// with a single STARK.
    Succinct(SuccinctReceipt<ReceiptClaim>),
    /// A [`Groth16Receipt`], proving arbitrarily long zkVM computations
    /// with a single SNARK.
    Groth16(Groth16Receipt<ReceiptClaim>),
    /// A [`FakeReceipt`], with no cryptographic integrity, used only for
    /// development.
    Fake(FakeReceipt<ReceiptClaim>),
}

/// The raw output bytes the guest execution committed to, carried
/// alongside the seal.
#[derive(Clone, Debug, PartialEq)]
pub struct Journal {
    /// The raw bytes of the journal.
    pub bytes: Vec<u8>,
}

/// Information for deciding whether a given verifier is compatible with a
/// receipt, when multiple verifier versions are in circulation.
#[derive(Clone, Debug, PartialEq, Eq)]
pub struct ReceiptMetadata {
    /// A digest of the verifier parameters that can be used to verify this
    /// receipt.
    pub verifier_parameters: Digest,
}

/// The top-level proof artifact a verifier consumes: a claim proven under
/// one of the strategies, the journal, and verifier metadata.
#[derive(Debug)]
pub struct Receipt {
    /// The polymorphic proof of the claim.
    pub inner: InnerReceipt,
    /// The journal the execution committed to.
    pub journal: Journal,
    /// Metadata for verifier selection.
    pub metadata: ReceiptMetadata,
}

} // verus!
