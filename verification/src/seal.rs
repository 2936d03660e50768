//! Canonical seal extraction: the flattened byte encoding of a receipt's
//! cryptographic seal, and the conversion core that pairs it with the
//! journal.

use vstd::prelude::*;
use vstd::slice::slice_index_get;
use crate::digest::words_to_bytes;
use crate::receipt::{InnerReceipt, Receipt};

verus! {

broadcast use crate::digest::lemma_digest_len;

/// The proof strategy a receipt carries.
#[derive(Clone, Copy, Debug, PartialEq, Eq, Structural)]
pub enum ReceiptKind {
    Composite,
    Succinct,
    Groth16,
    Fake,
}

impl ReceiptKind {
    /// The strategy's name.
    pub open spec fn spec_name(self) -> Seq<char> {
        match self {
            ReceiptKind::Composite => "Composite"@,
            ReceiptKind::Succinct => "Succinct"@,
            ReceiptKind::Groth16 => "Groth16"@,
            ReceiptKind::Fake => "Fake"@,
        }
    }

    /// The strategy's name, for diagnostics.
    pub fn name(&self) -> (r: &'static str)
        ensures
            r@ == self.spec_name(),
    {
        match self {
            ReceiptKind::Composite => "Composite",
            ReceiptKind::Succinct => "Succinct",
            ReceiptKind::Groth16 => "Groth16",
            ReceiptKind::Fake => "Fake",
        }
    }
}

/// Error: seal encoding was asked of a receipt whose proof strategy has no
/// flattened seal encoding. Carries that strategy.
#[derive(Clone, Copy, Debug, PartialEq, Eq, Structural)]
pub struct UnsupportedReceiptTypeError {
    /// The strategy of the receipt the encoding was asked of.
    pub kind: ReceiptKind,
}

impl InnerReceipt {
    /// The proof strategy of this receipt.
    pub open spec fn spec_kind(&self) -> ReceiptKind {
        match self {
            InnerReceipt::Composite(_) => ReceiptKind::Composite,
            InnerReceipt::Succinct(_) => ReceiptKind::Succinct,
            InnerReceipt::Groth16(_) => ReceiptKind::Groth16,
            InnerReceipt::Fake(_) => ReceiptKind::Fake,
        }
    }

    /// The proof strategy of this receipt.
    pub fn kind(&self) -> (k: ReceiptKind)
        ensures
            k == self.spec_kind(),
    {
        match self {
            InnerReceipt::Composite(_) => ReceiptKind::Composite,
            InnerReceipt::Succinct(_) => ReceiptKind::Succinct,
            InnerReceipt::Groth16(_) => ReceiptKind::Groth16,
            InnerReceipt::Fake(_) => ReceiptKind::Fake,
        }
    }
}

/// The flattened seal of a SNARK-wrapped receipt: the first four bytes of
/// the verifier-parameters digest as a selector, followed by the raw seal
/// bytes unchanged.
pub open spec fn spec_encoded_seal(vp_words: Seq<u32>, seal: Seq<u8>) -> Seq<u8> {
    words_to_bytes(vp_words).take(4) + seal
}

/// Encodes a receipt's seal as flat bytes for external verification.
/// Succeeds exactly on SNARK-wrapped receipts, whose encoding is the
/// four-byte selector followed by the raw seal; every other strategy needs
/// variant-specific downstream handling this routine does not provide, and
/// fails with the unsupported strategy. Pure: no side effects.
pub fn encode_seal(receipt: &Receipt) -> (r: Result<Vec<u8>, UnsupportedReceiptTypeError>)
    ensures
        r is Ok <==> receipt.inner is Groth16,
        receipt.inner is Groth16 ==> r->Ok_0@ == spec_encoded_seal(
            receipt.inner->Groth16_0.verifier_parameters@,
            receipt.inner->Groth16_0.seal@,
        ),
        !(receipt.inner is Groth16) ==> r->Err_0 == (UnsupportedReceiptTypeError {
            kind: receipt.inner.spec_kind(),
        }),
{
    match &receipt.inner {
        InnerReceipt::Groth16(g) => {
            let vp_bytes = g.verifier_parameters.as_bytes();
            let mut selector_seal: Vec<u8> = Vec::new();
            let mut i: usize = 0;
            proof {
                crate::digest::lemma_words_to_bytes_len(g.verifier_parameters@);
                assert(selector_seal@ =~= vp_bytes@.take(0));
            }
            while i < 4
                invariant
                    i <= 4,
                    vp_bytes@ == words_to_bytes(g.verifier_parameters@),
                    vp_bytes@.len() == 32,
                    selector_seal@ == vp_bytes@.take(i as int),
                decreases 4 - i,
            {
                selector_seal.push(*slice_index_get(vp_bytes.as_slice(), i));
                proof {
                    assert(vp_bytes@.take(i + 1) =~= vp_bytes@.take(i as int).push(
                        vp_bytes@[i as int],
                    ));
                }
                i = i + 1;
            }
            let m = g.seal.len();
            let mut j: usize = 0;
            proof {
                assert(selector_seal@ =~= vp_bytes@.take(4) + g.seal@.take(0));
            }
            while j < m
                invariant
                    m == g.seal@.len(),
                    j <= m,
                    vp_bytes@ == words_to_bytes(g.verifier_parameters@),
                    vp_bytes@.len() == 32,
                    selector_seal@ == vp_bytes@.take(4) + g.seal@.take(j as int),
                decreases m - j,
            {
                selector_seal.push(*slice_index_get(g.seal.as_slice(), j));
                proof {
                    assert(vp_bytes@.take(4) + g.seal@.take(j + 1) =~= (vp_bytes@.take(4)
                        + g.seal@.take(j as int)).push(g.seal@[j as int]));
                }
                j = j + 1;
            }
            proof {
                assert(g.seal@.take(m as int) =~= g.seal@);
            }
            Ok(selector_seal)
        },
        _ => Err(UnsupportedReceiptTypeError { kind: receipt.inner.kind() }),
    }
}

/// The flat results of a conversion: the encoded seal and the journal.
#[derive(Debug)]
pub struct ProofData {
    seal: Vec<u8>,
    journal: Vec<u8>,
}

impl ProofData {
    /// The encoded seal bytes this value carries.
    pub closed spec fn spec_seal(&self) -> Seq<u8> {
        self.seal@
    }

    /// The journal bytes this value carries.
    pub closed spec fn spec_journal(&self) -> Seq<u8> {
        self.journal@
    }

    /// The encoded seal.
    pub fn seal(&self) -> (r: Vec<u8>)
        ensures
            r@ == self.spec_seal(),
    {
        let mut out: Vec<u8> = Vec::new();
        out.extend_from_slice(self.seal.as_slice());
        out
    }

    /// The journal bytes.
    pub fn journal(&self) -> (r: Vec<u8>)
        ensures
            r@ == self.spec_journal(),
    {
        let mut out: Vec<u8> = Vec::new();
        out.extend_from_slice(self.journal.as_slice());
        out
    }
}

/// The computing core of the conversion entry point: given a decoded
/// receipt, encode its seal and return it alongside the receipt's journal
/// bytes unchanged. Fails exactly where [`encode_seal`] fails.
pub fn convert(receipt: Receipt) -> (r: Result<ProofData, UnsupportedReceiptTypeError>)
    ensures
        r is Ok <==> receipt.inner is Groth16,
        receipt.inner is Groth16 ==> {
            &&& r->Ok_0.spec_seal() == spec_encoded_seal(
                receipt.inner->Groth16_0.verifier_parameters@,
                receipt.inner->Groth16_0.seal@,
            )
            &&& r->Ok_0.spec_journal() == receipt.journal.bytes@
        },
        !(receipt.inner is Groth16) ==> r->Err_0 == (UnsupportedReceiptTypeError {
            kind: receipt.inner.spec_kind(),
        }),
{
    let seal = match encode_seal(&receipt) {
        Ok(seal) => seal,
        Err(e) => {
            return Err(e);
        },
    };
    Ok(ProofData { seal, journal: receipt.journal.bytes })
}

} // verus!
