//! Exit-code codec, seal extraction, and conversion behaviour.

use bincode2proof::claim::{MaybePruned, ReceiptClaim, SystemState};
use bincode2proof::digest::Digest;
use bincode2proof::exit_code::{ExitCode, InvalidExitCodeError};
use bincode2proof::receipt::{CompositeReceipt, FakeReceipt, Groth16Receipt, InnerReceipt,
    Journal, MerkleProof, Receipt, ReceiptMetadata, SegmentReceipt, SuccinctReceipt};
use bincode2proof::seal::{convert, encode_seal, ReceiptKind, UnsupportedReceiptTypeError};

fn sample_claim() -> ReceiptClaim {
    ReceiptClaim {
        pre: MaybePruned::Value(SystemState { pc: 64, merkle_root: Digest::zero() }),
        post: MaybePruned::Value(SystemState { pc: 0, merkle_root: Digest::zero() }),
        exit_code: ExitCode::Halted(0),
        input: MaybePruned::Value(None),
        output: MaybePruned::Value(None),
    }
}

fn sample_verifier_parameters() -> Digest {
    let mut bytes: [u8; 32] = [0u8; 32];
    bytes[0] = 0xaa;
    bytes[1] = 0xbb;
    bytes[2] = 0xcc;
    bytes[3] = 0xdd;
    let mut k: usize = 4;
    while k < 32 {
        bytes[k] = k as u8;
        k += 1;
    }
    Digest::from_bytes(bytes)
}

fn groth16_receipt(seal: Vec<u8>, journal: Vec<u8>) -> Receipt {
    Receipt {
        inner: InnerReceipt::Groth16(Groth16Receipt {
            seal,
            claim: MaybePruned::Value(sample_claim()),
            verifier_parameters: sample_verifier_parameters(),
        }),
        journal: Journal { bytes: journal },
        metadata: ReceiptMetadata { verifier_parameters: sample_verifier_parameters() },
    }
}

fn with_inner(inner: InnerReceipt) -> Receipt {
    Receipt {
        inner,
        journal: Journal { bytes: vec![9u8] },
        metadata: ReceiptMetadata { verifier_parameters: Digest::zero() },
    }
}

#[test]
fn exit_code_pairs_round_trip() {
    let cases = [
        ExitCode::Halted(0),
        ExitCode::Halted(255),
        ExitCode::Paused(7),
        ExitCode::SystemSplit,
        ExitCode::SessionLimit,
    ];
    for ec in cases {
        let (sys, user) = ec.into_pair();
        assert_eq!(ExitCode::from_pair(sys, user), Ok(ec));
    }
    assert_eq!(ExitCode::Halted(255).into_pair(), (0, 255));
    assert_eq!(ExitCode::from_pair(0, 255), Ok(ExitCode::Halted(255)));
    assert_eq!(ExitCode::SessionLimit.into_pair(), (2, 2));
    assert_eq!(ExitCode::SystemSplit.into_pair(), (2, 0));
}

#[test]
fn invalid_pair_is_rejected_with_its_values() {
    assert_eq!(ExitCode::from_pair(3, 0), Err(InvalidExitCodeError(3, 0)));
    assert_eq!(ExitCode::from_pair(77, 5), Err(InvalidExitCodeError(77, 5)));
}

#[test]
fn output_is_expected_only_for_user_exits() {
    assert!(ExitCode::Halted(3).expects_output());
    assert!(ExitCode::Paused(0).expects_output());
    assert!(!ExitCode::SystemSplit.expects_output());
    assert!(!ExitCode::SessionLimit.expects_output());
}

#[test]
fn only_clean_halt_is_ok() {
    assert!(ExitCode::Halted(0).is_ok());
    assert!(!ExitCode::Halted(1).is_ok());
    assert!(!ExitCode::Paused(0).is_ok());
    assert!(!ExitCode::SystemSplit.is_ok());
    assert!(!ExitCode::SessionLimit.is_ok());
}

#[test]
fn groth16_seal_is_selector_then_raw_seal() {
    let receipt = groth16_receipt(vec![0x01, 0x02], vec![0x10, 0x20]);
    let seal = encode_seal(&receipt).unwrap();
    assert_eq!(seal, vec![0xaa, 0xbb, 0xcc, 0xdd, 0x01, 0x02]);
}

#[test]
fn non_groth16_receipts_have_no_flat_seal() {
    let fake = with_inner(InnerReceipt::Fake(FakeReceipt {
        claim: MaybePruned::Pruned(Digest::zero()),
    }));
    assert_eq!(
        encode_seal(&fake),
        Err(UnsupportedReceiptTypeError { kind: ReceiptKind::Fake }),
    );
    let composite = with_inner(InnerReceipt::Composite(CompositeReceipt {
        segments: vec![],
        assumption_receipts: vec![],
        verifier_parameters: Digest::zero(),
    }));
    assert_eq!(
        encode_seal(&composite),
        Err(UnsupportedReceiptTypeError { kind: ReceiptKind::Composite }),
    );
    let succinct = with_inner(InnerReceipt::Succinct(SuccinctReceipt {
        seal: vec![],
        control_id: Digest::zero(),
        claim: MaybePruned::Value(sample_claim()),
        hashfn: "sha-256".to_string(),
        verifier_parameters: Digest::zero(),
        control_inclusion_proof: MerkleProof { index: 0, digests: vec![] },
    }));
    assert_eq!(
        encode_seal(&succinct),
        Err(UnsupportedReceiptTypeError { kind: ReceiptKind::Succinct }),
    );
}

#[test]
fn receipt_kind_names() {
    assert_eq!(ReceiptKind::Composite.name(), "Composite");
    assert_eq!(ReceiptKind::Succinct.name(), "Succinct");
    assert_eq!(ReceiptKind::Groth16.name(), "Groth16");
    assert_eq!(ReceiptKind::Fake.name(), "Fake");
}

#[test]
fn conversion_yields_seal_and_journal() {
    let receipt = groth16_receipt(vec![0x01, 0x02], vec![0x10, 0x20]);
    let proof_data = convert(receipt).unwrap();
    assert_eq!(proof_data.seal(), vec![0xaa, 0xbb, 0xcc, 0xdd, 0x01, 0x02]);
    assert_eq!(proof_data.journal(), vec![0x10, 0x20]);
}

#[test]
fn conversion_fails_on_unsupported_receipts() {
    let fake = with_inner(InnerReceipt::Fake(FakeReceipt {
        claim: MaybePruned::Pruned(Digest::zero()),
    }));
    let err = convert(fake).unwrap_err();
    assert_eq!(err, UnsupportedReceiptTypeError { kind: ReceiptKind::Fake });
    assert_eq!(err.kind.name(), "Fake");
}

#[test]
fn seal_bytes_are_little_endian_words() {
    let segment = SegmentReceipt {
        seal: vec![0x04030201, 0x08070605],
        index: 0,
        hashfn: "sha-256".to_string(),
        verifier_parameters: Digest::zero(),
        claim: sample_claim(),
    };
    assert_eq!(segment.get_seal_bytes(), vec![1u8, 2, 3, 4, 5, 6, 7, 8]);
    assert_eq!(segment.seal_size(), 8);
    let succinct: SuccinctReceipt<ReceiptClaim> = SuccinctReceipt {
        seal: vec![0x04030201, 0x08070605, 0x0c0b0a09],
        control_id: Digest::zero(),
        claim: MaybePruned::Value(sample_claim()),
        hashfn: "sha-256".to_string(),
        verifier_parameters: Digest::zero(),
        control_inclusion_proof: MerkleProof { index: 0, digests: vec![] },
    };
    assert_eq!(succinct.get_seal_bytes().len(), 12);
    assert_eq!(succinct.seal_size(), 12);
}
