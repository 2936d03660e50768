//! Hashing behaviour against a concrete SHA-256 backend.

use bincode2proof::claim::{Assumption, Assumptions, MaybePruned, Output, ReceiptClaim,
    SystemState};
use bincode2proof::exit_code::ExitCode;
use bincode2proof::digest::Digest;
use bincode2proof::digestible::risc0_binfmt_Digestible;
use bincode2proof::receipt::{MerkleProof, SuccinctReceipt};
use bincode2proof::sha::{sha256_init, Block, Sha256};
use bincode2proof::tagged::{tagged_iter, tagged_list, tagged_list_cons, tagged_struct};
use sha2::Digest as Sha2DigestTrait;

struct TestSha;

fn sha(bytes: &[u8]) -> Digest {
    let out = sha2::Sha256::digest(bytes);
    let arr: [u8; 32] = out.into();
    Digest::from_bytes(arr)
}

fn compress_block_bytes(state: &Digest, block: &[u8]) -> Digest {
    assert_eq!(block.len(), 64);
    let sb = state.as_bytes();
    let st: Vec<u32> = sb
        .chunks(4)
        .map(|c| u32::from_be_bytes([c[0], c[1], c[2], c[3]]))
        .collect();
    let mut st_arr: [u32; 8] = st.try_into().unwrap();
    let ga = sha2::digest::generic_array::GenericArray::<u8, sha2::digest::consts::U64>::clone_from_slice(block);
    sha2::compress256(&mut st_arr, &[ga]);
    let out: Vec<u8> = st_arr.iter().flat_map(|w| w.to_be_bytes()).collect();
    let arr: [u8; 32] = out.try_into().unwrap();
    Digest::from_bytes(arr)
}

impl Sha256 for TestSha {
    // The `spec_` items exist only for verification and are never called
    // at run time.
    fn spec_hash_bytes(_bytes: vstd::seq::Seq<u8>) -> vstd::seq::Seq<u32> {
        unreachable!()
    }

    fn spec_compress(
        _state: vstd::seq::Seq<u32>,
        _half1: vstd::seq::Seq<u32>,
        _half2: vstd::seq::Seq<u32>,
    ) -> vstd::seq::Seq<u32> {
        unreachable!()
    }

    fn spec_hash_raw_words(_words: vstd::seq::Seq<u32>) -> vstd::seq::Seq<u32> {
        unreachable!()
    }

    fn hash_bytes(bytes: &[u8]) -> Digest {
        sha(bytes)
    }

    fn hash_words(words: &[u32]) -> Digest {
        let bytes: Vec<u8> = words.iter().flat_map(|w| w.to_le_bytes()).collect();
        sha(&bytes)
    }

    fn compress(state: &Digest, block_half1: &Digest, block_half2: &Digest) -> Digest {
        let mut block: Vec<u8> = block_half1.as_bytes();
        block.extend_from_slice(&block_half2.as_bytes());
        compress_block_bytes(state, &block)
    }

    fn hash_pair(a: &Digest, b: &Digest) -> Digest {
        Self::compress(&sha256_init(), a, b)
    }

    fn compress_slice(state: &Digest, blocks: &[Block]) -> Digest {
        let mut cur = *state;
        for block in blocks {
            let bytes: Vec<u8> = block.as_words().iter().flat_map(|w| w.to_le_bytes()).collect();
            cur = compress_block_bytes(&cur, &bytes);
        }
        cur
    }

    fn hash_raw_data_slice(data: &[u32]) -> Digest {
        let mut bytes: Vec<u8> = data.iter().flat_map(|w| w.to_le_bytes()).collect();
        while bytes.len() % 64 != 0 {
            bytes.push(0u8);
        }
        let mut cur = sha256_init();
        for block in bytes.chunks(64) {
            cur = compress_block_bytes(&cur, block);
        }
        cur
    }
}

fn sample_digest(seed: u32) -> Digest {
    Digest::new([seed, seed + 1, seed + 2, seed + 3, seed + 4, seed + 5, seed + 6, seed + 7])
}

#[test]
fn digest_byte_round_trip() {
    let bytes: Vec<u8> = (0u8..32).collect();
    let arr: [u8; 32] = bytes.clone().try_into().unwrap();
    let d = Digest::from_bytes(arr);
    assert_eq!(d.as_bytes(), bytes);
    assert_eq!(d.as_words()[0], 0x03020100u32);
    assert_eq!(d.as_words()[7], 0x1f1e1d1cu32);
}

#[test]
fn zero_digest_is_all_zero() {
    let z = Digest::zero();
    assert_eq!(z.as_bytes(), vec![0u8; 32]);
    assert_eq!(z, Digest::new([0u32, 0, 0, 0, 0, 0, 0, 0]));
}

#[test]
fn tagged_struct_matches_manual_preimage() {
    let a = sample_digest(100);
    let b = sample_digest(200);
    let got = tagged_struct::<TestSha>("risc0.Assumption", &[a, b], &[]);
    let mut pre: Vec<u8> = Vec::new();
    pre.extend_from_slice(&sha("risc0.Assumption".as_bytes()).as_bytes());
    pre.extend_from_slice(&a.as_bytes());
    pre.extend_from_slice(&b.as_bytes());
    pre.extend_from_slice(&2u16.to_le_bytes());
    assert_eq!(got, sha(&pre));
}

#[test]
fn tagged_struct_with_data_words_matches_manual_preimage() {
    let root = sample_digest(7);
    let got = tagged_struct::<TestSha>("risc0.SystemState", &[root], &[1337u32]);
    let mut pre: Vec<u8> = Vec::new();
    pre.extend_from_slice(&sha("risc0.SystemState".as_bytes()).as_bytes());
    pre.extend_from_slice(&root.as_bytes());
    pre.extend_from_slice(&1337u32.to_le_bytes());
    pre.extend_from_slice(&1u16.to_le_bytes());
    assert_eq!(got, sha(&pre));
    let state = SystemState { pc: 1337, merkle_root: root };
    let ss = <SystemState as risc0_binfmt_Digestible<TestSha>>::digest(&state);
    assert_eq!(ss, got);
}

#[test]
fn tagged_struct_with_no_children_still_commits_to_the_count() {
    let got = tagged_struct::<TestSha>("t", &[], &[]);
    let mut pre: Vec<u8> = sha("t".as_bytes()).as_bytes();
    pre.extend_from_slice(&0u16.to_le_bytes());
    assert_eq!(got, sha(&pre));
}

#[test]
fn tagged_struct_is_order_sensitive() {
    let a = sample_digest(1);
    let b = sample_digest(2);
    let ab = tagged_struct::<TestSha>("t", &[a, b], &[]);
    let ba = tagged_struct::<TestSha>("t", &[b, a], &[]);
    assert_ne!(ab, ba);
}

#[test]
fn empty_tagged_list_is_zero_digest() {
    assert_eq!(tagged_list::<TestSha>("t", &[]), Digest::zero());
    assert_eq!(tagged_iter::<TestSha>("t", &[]), Digest::zero());
}

#[test]
fn tagged_list_folds_from_the_last_element() {
    let a = sample_digest(10);
    let b = sample_digest(20);
    let c = sample_digest(30);
    let expect = tagged_list_cons::<TestSha>(
        "t",
        &a,
        &tagged_list_cons::<TestSha>("t", &b, &tagged_list_cons::<TestSha>("t", &c, &Digest::zero())),
    );
    assert_eq!(tagged_list::<TestSha>("t", &[a, b, c]), expect);
}

#[test]
fn tagged_list_cons_is_a_two_child_struct() {
    let head = sample_digest(4);
    let tail = sample_digest(9);
    assert_eq!(
        tagged_list_cons::<TestSha>("t", &head, &tail),
        tagged_struct::<TestSha>("t", &[head, tail], &[]),
    );
}

#[test]
fn pruning_is_transparent_to_digests() {
    let journal: Vec<u8> = vec![1u8, 2, 3];
    let value_digest = <Vec<u8> as risc0_binfmt_Digestible<TestSha>>::digest(&journal);
    let wrapped = MaybePruned::Value(journal.clone());
    assert_eq!(
        <MaybePruned<Vec<u8>> as risc0_binfmt_Digestible<TestSha>>::digest(&wrapped),
        value_digest,
    );
    let d = sample_digest(77);
    let pruned: MaybePruned<Vec<u8>> = MaybePruned::Pruned(d);
    assert_eq!(
        <MaybePruned<Vec<u8>> as risc0_binfmt_Digestible<TestSha>>::digest(&pruned),
        d,
    );
}

#[test]
fn byte_vector_digests_to_its_plain_hash() {
    let bytes: Vec<u8> = vec![0xde, 0xad, 0xbe, 0xef];
    assert_eq!(
        <Vec<u8> as risc0_binfmt_Digestible<TestSha>>::digest(&bytes),
        sha(&bytes),
    );
}

#[test]
fn option_digests_to_value_or_zero() {
    let none: Option<Vec<u8>> = None;
    assert_eq!(
        <Option<Vec<u8>> as risc0_binfmt_Digestible<TestSha>>::digest(&none),
        Digest::zero(),
    );
    let some: Option<Vec<u8>> = Some(vec![5u8, 6]);
    assert_eq!(
        <Option<Vec<u8>> as risc0_binfmt_Digestible<TestSha>>::digest(&some),
        sha(&[5u8, 6]),
    );
}

#[test]
fn slice_digest_is_the_untagged_right_fold() {
    let x: Vec<u8> = vec![1u8];
    let y: Vec<u8> = vec![2u8];
    let dx = sha(&x);
    let dy = sha(&y);
    let items = [x, y];
    let got = <[Vec<u8>] as risc0_binfmt_Digestible<TestSha>>::digest(&items[..]);
    let mut inner_pre: Vec<u8> = Digest::zero().as_bytes();
    inner_pre.extend_from_slice(&dy.as_bytes());
    let inner = sha(&inner_pre);
    let mut outer_pre: Vec<u8> = inner.as_bytes();
    outer_pre.extend_from_slice(&dx.as_bytes());
    assert_eq!(got, sha(&outer_pre));
    let empty: [Vec<u8>; 0] = [];
    assert_eq!(
        <[Vec<u8>] as risc0_binfmt_Digestible<TestSha>>::digest(&empty[..]),
        Digest::zero(),
    );
}

#[test]
fn assumption_digest_matches_its_tagged_struct() {
    let a = Assumption { claim: sample_digest(3), control_root: sample_digest(8) };
    assert_eq!(
        <Assumption as risc0_binfmt_Digestible<TestSha>>::digest(&a),
        tagged_struct::<TestSha>("risc0.Assumption", &[a.claim, a.control_root], &[]),
    );
}

#[test]
fn assumptions_digest_is_the_tagged_list_of_entries() {
    let x = sample_digest(41);
    let y = sample_digest(42);
    let assumptions = Assumptions(vec![MaybePruned::Pruned(x), MaybePruned::Pruned(y)]);
    assert_eq!(
        <Assumptions as risc0_binfmt_Digestible<TestSha>>::digest(&assumptions),
        tagged_list::<TestSha>("risc0.Assumptions", &[x, y]),
    );
    let empty = Assumptions(vec![]);
    assert_eq!(
        <Assumptions as risc0_binfmt_Digestible<TestSha>>::digest(&empty),
        Digest::zero(),
    );
}

#[test]
fn output_digest_matches_its_tagged_struct() {
    let journal: Vec<u8> = vec![0x10, 0x20];
    let out = Output {
        journal: MaybePruned::Value(journal.clone()),
        assumptions: MaybePruned::Value(Assumptions(vec![])),
    };
    assert_eq!(
        <Output as risc0_binfmt_Digestible<TestSha>>::digest(&out),
        tagged_struct::<TestSha>("risc0.Output", &[sha(&journal), Digest::zero()], &[]),
    );
}

#[test]
fn receipt_claim_digest_matches_its_tagged_struct() {
    let pre = SystemState { pc: 4096, merkle_root: sample_digest(5) };
    let post = SystemState { pc: 0, merkle_root: Digest::zero() };
    let claim = ReceiptClaim {
        pre: MaybePruned::Value(pre.clone()),
        post: MaybePruned::Value(post.clone()),
        exit_code: ExitCode::Paused(3),
        input: MaybePruned::Value(None),
        output: MaybePruned::Value(None),
    };
    let pre_d = <SystemState as risc0_binfmt_Digestible<TestSha>>::digest(&pre);
    let post_d = <SystemState as risc0_binfmt_Digestible<TestSha>>::digest(&post);
    assert_eq!(
        <ReceiptClaim as risc0_binfmt_Digestible<TestSha>>::digest(&claim),
        tagged_struct::<TestSha>(
            "risc0.ReceiptClaim",
            &[Digest::zero(), pre_d, post_d, Digest::zero()],
            &[1u32, 3u32],
        ),
    );
}

#[test]
fn merkle_root_recomputation_follows_the_index_bits() {
    let l0 = sample_digest(0);
    let l1 = sample_digest(8);
    let l2 = sample_digest(16);
    let l3 = sample_digest(24);
    let h01 = TestSha::hash_pair(&l0, &l1);
    let h23 = TestSha::hash_pair(&l2, &l3);
    let root = TestSha::hash_pair(&h01, &h23);
    let proof_for_2 = MerkleProof { index: 2, digests: vec![l3, h01] };
    assert_eq!(proof_for_2.root::<TestSha>(&l2), root);
    let proof_for_1 = MerkleProof { index: 1, digests: vec![l0, h23] };
    assert_eq!(proof_for_1.root::<TestSha>(&l1), root);
    let empty_proof = MerkleProof { index: 0, digests: vec![] };
    assert_eq!(empty_proof.root::<TestSha>(&l0), l0);
}

#[test]
fn control_root_recomputes_through_the_inclusion_proof() {
    let control_id = sample_digest(90);
    let sibling = sample_digest(91);
    let receipt: SuccinctReceipt<Vec<u8>> = SuccinctReceipt {
        seal: vec![],
        control_id,
        claim: MaybePruned::Pruned(Digest::zero()),
        hashfn: String::from("sha-256"),
        verifier_parameters: Digest::zero(),
        control_inclusion_proof: MerkleProof { index: 1, digests: vec![sibling] },
    };
    assert_eq!(
        receipt.control_root::<TestSha>(),
        TestSha::hash_pair(&sibling, &control_id),
    );
}

#[test]
fn hash_words_hashes_the_little_endian_bytes() {
    let got = TestSha::hash_words(&[0x04030201u32, 0x08070605u32]);
    assert_eq!(got, sha(&[1u8, 2, 3, 4, 5, 6, 7, 8]));
}

#[test]
fn compress_slice_iterates_compress() {
    let state = sample_digest(60);
    let h1 = sample_digest(70);
    let h2 = sample_digest(80);
    let mut words: Vec<u32> = h1.as_words().to_vec();
    words.extend_from_slice(h2.as_words());
    let arr: [u32; 16] = words.try_into().unwrap();
    let block = Block::new(arr);
    assert_eq!(
        TestSha::compress_slice(&state, &[block]),
        TestSha::compress(&state, &h1, &h2),
    );
    assert_eq!(TestSha::compress_slice(&state, &[]), state);
}

#[test]
fn hash_raw_data_slice_pads_with_zeros() {
    let data = [0x04030201u32];
    let mut padded: [u8; 32] = [0u8; 32];
    padded[0] = 1;
    padded[1] = 2;
    padded[2] = 3;
    padded[3] = 4;
    let h1 = Digest::from_bytes(padded);
    let expect = TestSha::compress(&sha256_init(), &h1, &Digest::zero());
    assert_eq!(TestSha::hash_raw_data_slice(&data), expect);
}

#[test]
fn sha256_init_has_the_standard_bytes() {
    let d = sha256_init();
    let bytes = d.as_bytes();
    assert_eq!(&bytes[0..4], &[0x6a, 0x09, 0xe6, 0x67]);
    assert_eq!(&bytes[28..32], &[0x5b, 0xe0, 0xcd, 0x19]);
}
