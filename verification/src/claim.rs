//! The structured statement a receipt attests to: committed machine
//! states, outputs, assumptions, and the claim record that binds them,
//! together with the selective-disclosure wrapper `MaybePruned`.

use vstd::prelude::*;
use vstd::string::StringSliceAdditionalSpecFns;
use crate::digest::{zero_words, Digest};
use crate::digestible::risc0_binfmt_Digestible;
use crate::exit_code::ExitCode;
use crate::sha::Sha256;
use crate::tagged::{spec_tagged_list, spec_tagged_struct, tagged_list, tagged_struct};

verus! {

broadcast use crate::digest::lemma_digest_len;

/// Committed machine state at a point in execution.
#[derive(Clone, Debug, PartialEq)]
pub struct SystemState {
    /// The program counter.
    pub pc: u32,
    /// The root hash of a merkle tree which confirms the integrity of the
    /// memory image.
    pub merkle_root: Digest,
}

impl<S: Sha256> risc0_binfmt_Digestible<S> for SystemState {
    open spec fn spec_digest(&self) -> Seq<u32> {
        spec_tagged_struct::<S>(
            "risc0.SystemState".spec_bytes(),
            seq![self.merkle_root@],
            seq![self.pc],
        )
    }

    /// Hash the [`SystemState`] to get a digest of the struct.
    fn digest(&self) -> (r: Digest) {
        let down = [self.merkle_root];
        let data = [self.pc];
        let r = tagged_struct::<S>("risc0.SystemState", down.as_slice(), data.as_slice());
        proof {
            assert(down@.map_values(|d: Digest| d@) =~= seq![self.merkle_root@]);
            assert(data@ =~= seq![self.pc]);
        }
        r
    }
}

/// A claim type whose shape is intentionally not yet specified: it
/// reserves a place in the claim layout that can be populated later
/// without breaking compatibility. Its field is private and the crate
/// offers no constructor, so no caller can produce a value of it; in a
/// claim tree it only ever appears pruned.
#[derive(Clone, Debug, PartialEq)]
pub struct Unknown {
    _reserved: bool,
}

impl<S: Sha256> risc0_binfmt_Digestible<S> for Unknown {
    open spec fn spec_digest(&self) -> Seq<u32> {
        zero_words()
    }

    fn digest(&self) -> (r: Digest) {
        Digest::zero()
    }
}

/// Input to the guest. Its only field is the reserved [`Unknown`], so the
/// type cannot be constructed yet; it can be populated later without
/// breaking backwards compatibility.
#[derive(Clone, Debug, PartialEq)]
pub struct Input {
    pub(crate) x: Unknown,
}

impl<S: Sha256> risc0_binfmt_Digestible<S> for Input {
    open spec fn spec_digest(&self) -> Seq<u32> {
        zero_words()
    }

    /// Hash the [`Input`] to get a digest of the struct.
    fn digest(&self) -> (r: Digest) {
        Digest::zero()
    }
}

/// A reference to another claim this execution depends on, plus the
/// control root it must be verified under.
#[derive(Clone, Debug, PartialEq, Eq, Hash)]
pub struct Assumption {
    pub claim: Digest,
    pub control_root: Digest,
}

impl<S: Sha256> risc0_binfmt_Digestible<S> for Assumption {
    open spec fn spec_digest(&self) -> Seq<u32> {
        spec_tagged_struct::<S>(
            "risc0.Assumption".spec_bytes(),
            seq![self.claim@, self.control_root@],
            Seq::empty(),
        )
    }

    /// Hash the [`Assumption`] to get a digest of the struct.
    fn digest(&self) -> (r: Digest) {
        let down = [self.claim, self.control_root];
        let data: [u32; 0] = [];
        let r = tagged_struct::<S>("risc0.Assumption", down.as_slice(), data.as_slice());
        proof {
            assert(down@.map_values(|d: Digest| d@) =~= seq![self.claim@, self.control_root@]);
            assert(data@ =~= Seq::<u32>::empty());
        }
        r
    }
}

/// Either a full value or only its digest: the selective-disclosure
/// mechanism. Any subtree of a claim can be replaced by its digest without
/// changing the digests of its ancestors.
#[derive(Clone, Debug, PartialEq)]
pub enum MaybePruned<T> {
    /// Unpruned value.
    Value(T),
    /// Pruned value, which is a hash [`Digest`] of the value.
    Pruned(Digest),
}

impl<S: Sha256, T: risc0_binfmt_Digestible<S>> risc0_binfmt_Digestible<S> for MaybePruned<T> {
    open spec fn spec_digest(&self) -> Seq<u32> {
        match self {
            MaybePruned::Value(val) => <T as risc0_binfmt_Digestible<S>>::spec_digest(val),
            MaybePruned::Pruned(digest) => digest@,
        }
    }

    fn digest(&self) -> (r: Digest) {
        match self {
            MaybePruned::Value(val) => val.digest(),
            MaybePruned::Pruned(digest) => *digest,
        }
    }
}

/// Pruning transparency: the digest of a `MaybePruned` value is the same
/// whether or not the payload has been elided — a full value digests to
/// its own digest, and a pruned node digests to the digest it carries.
pub proof fn lemma_pruning_transparency<S: Sha256, T: risc0_binfmt_Digestible<S>>(v: T, d: Digest)
    ensures
        <MaybePruned<T> as risc0_binfmt_Digestible<S>>::spec_digest(&MaybePruned::Value(v)) == <T as
            risc0_binfmt_Digestible<S>>::spec_digest(&v),
        <MaybePruned<T> as risc0_binfmt_Digestible<S>>::spec_digest(&MaybePruned::Pruned(d)) == d@,
{
}

/// An ordered list of assumptions made by an execution.
#[derive(Clone, Default, Debug, PartialEq)]
pub struct Assumptions(pub Vec<MaybePruned<Assumption>>);

impl<S: Sha256> risc0_binfmt_Digestible<S> for Assumptions {
    open spec fn spec_digest(&self) -> Seq<u32> {
        spec_tagged_list::<S>(
            "risc0.Assumptions".spec_bytes(),
            self.0@.map_values(
                |a: MaybePruned<Assumption>| <MaybePruned<Assumption> as risc0_binfmt_Digestible<
                    S,
                >>::spec_digest(&a),
            ),
        )
    }

    /// Hash the [`Assumptions`] to get a digest of the struct.
    fn digest(&self) -> (r: Digest) {
        let ghost item_words = self.0@.map_values(
            |a: MaybePruned<Assumption>| <MaybePruned<Assumption> as risc0_binfmt_Digestible<
                S,
            >>::spec_digest(&a),
        );
        let mut digests: Vec<Digest> = Vec::new();
        let n = self.0.len();
        let mut i: usize = 0;
        while i < n
            invariant
                n == self.0@.len(),
                i <= n,
                item_words == self.0@.map_values(
                    |a: MaybePruned<Assumption>| <MaybePruned<
                        Assumption,
                    > as risc0_binfmt_Digestible<S>>::spec_digest(&a),
                ),
                digests@.len() == i,
                digests@.map_values(|d: Digest| d@) == item_words.take(i as int),
            decreases n - i,
        {
            let d = <MaybePruned<Assumption> as risc0_binfmt_Digestible<S>>::digest(&self.0[i]);
            digests.push(d);
            proof {
                assert(digests@.map_values(|d: Digest| d@) =~= item_words.take(i + 1));
            }
            i = i + 1;
        }
        let r = tagged_list::<S>("risc0.Assumptions", digests.as_slice());
        proof {
            assert(digests@.map_values(|d: Digest| d@) =~= item_words);
        }
        r
    }
}

/// The externally visible result of an execution: the journal committed
/// to by the guest and the assumptions set during execution.
#[derive(Clone, Debug, PartialEq)]
pub struct Output {
    /// The journal committed to by the guest execution.
    pub journal: MaybePruned<Vec<u8>>,
    /// An ordered list of assumption digests. While any assumption is
    /// unresolved, the claims over the guest execution hold only
    /// conditionally on every assumption in the list being verified.
    pub assumptions: MaybePruned<Assumptions>,
}

impl<S: Sha256> risc0_binfmt_Digestible<S> for Output {
    open spec fn spec_digest(&self) -> Seq<u32> {
        spec_tagged_struct::<S>(
            "risc0.Output".spec_bytes(),
            seq![
                <MaybePruned<Vec<u8>> as risc0_binfmt_Digestible<S>>::spec_digest(&self.journal),
                <MaybePruned<Assumptions> as risc0_binfmt_Digestible<S>>::spec_digest(
                    &self.assumptions,
                ),
            ],
            Seq::empty(),
        )
    }

    /// Hash the [`Output`] to get a digest of the struct.
    fn digest(&self) -> (r: Digest) {
        let down = [
            <MaybePruned<Vec<u8>> as risc0_binfmt_Digestible<S>>::digest(&self.journal),
            <MaybePruned<Assumptions> as risc0_binfmt_Digestible<S>>::digest(&self.assumptions),
        ];
        let data: [u32; 0] = [];
        let r = tagged_struct::<S>("risc0.Output", down.as_slice(), data.as_slice());
        proof {
            assert(down@.map_values(|d: Digest| d@) =~= seq![
                <MaybePruned<Vec<u8>> as risc0_binfmt_Digestible<S>>::spec_digest(&self.journal),
                <MaybePruned<Assumptions> as risc0_binfmt_Digestible<S>>::spec_digest(
                    &self.assumptions,
                ),
            ]);
            assert(data@ =~= Seq::<u32>::empty());
        }
        r
    }
}

/// The canonical statement "execution went from `pre` to `post`,
/// terminating with `exit_code`, given `input`, producing `output`": the
/// object every receipt variant ultimately proves.
#[derive(Clone, Debug, PartialEq)]
pub struct ReceiptClaim {
    /// The [`SystemState`] just before execution has begun.
    pub pre: MaybePruned<SystemState>,
    /// The [`SystemState`] just after execution has completed.
    pub post: MaybePruned<SystemState>,
    /// The exit code for the execution.
    pub exit_code: ExitCode,
    /// Input to the guest.
    pub input: MaybePruned<Option<Input>>,
    /// [`Output`] of the guest, including the journal and assumptions set
    /// during execution.
    pub output: MaybePruned<Option<Output>>,
}

impl<S: Sha256> risc0_binfmt_Digestible<S> for ReceiptClaim {
    open spec fn spec_digest(&self) -> Seq<u32> {
        spec_tagged_struct::<S>(
            "risc0.ReceiptClaim".spec_bytes(),
            seq![
                <MaybePruned<Option<Input>> as risc0_binfmt_Digestible<S>>::spec_digest(
                    &self.input,
                ),
                <MaybePruned<SystemState> as risc0_binfmt_Digestible<S>>::spec_digest(&self.pre),
                <MaybePruned<SystemState> as risc0_binfmt_Digestible<S>>::spec_digest(&self.post),
                <MaybePruned<Option<Output>> as risc0_binfmt_Digestible<S>>::spec_digest(
                    &self.output,
                ),
            ],
            seq![self.exit_code.spec_into_pair().0, self.exit_code.spec_into_pair().1],
        )
    }

    /// Hash the [`ReceiptClaim`] to get a digest of the struct.
    fn digest(&self) -> (r: Digest) {
        let (sys_exit, user_exit) = self.exit_code.into_pair();
        let down = [
            <MaybePruned<Option<Input>> as risc0_binfmt_Digestible<S>>::digest(&self.input),
            <MaybePruned<SystemState> as risc0_binfmt_Digestible<S>>::digest(&self.pre),
            <MaybePruned<SystemState> as risc0_binfmt_Digestible<S>>::digest(&self.post),
            <MaybePruned<Option<Output>> as risc0_binfmt_Digestible<S>>::digest(&self.output),
        ];
        let data = [sys_exit, user_exit];
        let r = tagged_struct::<S>("risc0.ReceiptClaim", down.as_slice(), data.as_slice());
        proof {
            assert(down@.map_values(|d: Digest| d@) =~= seq![
                <MaybePruned<Option<Input>> as risc0_binfmt_Digestible<S>>::spec_digest(
                    &self.input,
                ),
                <MaybePruned<SystemState> as risc0_binfmt_Digestible<S>>::spec_digest(&self.pre),
                <MaybePruned<SystemState> as risc0_binfmt_Digestible<S>>::spec_digest(&self.post),
                <MaybePruned<Option<Output>> as risc0_binfmt_Digestible<S>>::spec_digest(
                    &self.output,
                ),
            ]);
            assert(data@ =~= seq![
                self.exit_code.spec_into_pair().0,
                self.exit_code.spec_into_pair().1,
            ]);
        }
        r
    }
}

} // verus!
