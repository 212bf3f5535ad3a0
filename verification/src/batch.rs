//! Batch bookkeeping: deterministic artifact names, their injectivity, and
//! the aggregation of per-frame outcomes.

use vstd::prelude::*;
use vstd::arithmetic::div_mod::lemma_fundamental_div_mod;
use crate::text::{dec_rep, push_decimal};

verus! {

/// The fixed stem of every artifact name: `far-nearer-`.
pub open spec fn name_stem() -> Seq<u8> {
    seq![102u8, 97u8, 114u8, 45u8, 110u8, 101u8, 97u8, 114u8, 101u8, 114u8, 45u8]
}

/// The fixed extension of every artifact name: `.png`.
pub open spec fn name_extension() -> Seq<u8> {
    seq![46u8, 112u8, 110u8, 103u8]
}

/// The artifact name of the frame at `angle`: `far-nearer-<angle>.png`.
/// The angle in the name makes outputs sort naturally and reproducibly.
pub open spec fn artifact_name_text(angle: nat) -> Seq<u8> {
    name_stem() + dec_rep(angle) + name_extension()
}

/// Builds the artifact file name for the frame at `angle`.
pub fn artifact_name(angle: u16) -> (r: Vec<u8>)
    ensures
        r@ == artifact_name_text(angle as nat),
{
    let mut out: Vec<u8> = Vec::new();
    out.push(102u8);
    out.push(97u8);
    out.push(114u8);
    out.push(45u8);
    out.push(110u8);
    out.push(101u8);
    out.push(97u8);
    out.push(114u8);
    out.push(101u8);
    out.push(114u8);
    out.push(45u8);
    push_decimal(&mut out, angle);
    out.push(46u8);
    out.push(112u8);
    out.push(110u8);
    out.push(103u8);
    proof {
        assert(out@ =~= artifact_name_text(angle as nat));
    }
    out
}

proof fn lemma_dec_rep_len(n: nat)
    ensures
        dec_rep(n).len() >= 1,
        n >= 10 ==> dec_rep(n).len() >= 2,
    decreases n,
{
    if n >= 10 {
        lemma_dec_rep_len(n / 10);
    }
}

/// Two numbers with the same decimal digits are equal.
proof fn lemma_dec_rep_injective(a: nat, b: nat)
    requires
        dec_rep(a) == dec_rep(b),
    ensures
        a == b,
    decreases a,
{
    lemma_dec_rep_len(a);
    lemma_dec_rep_len(b);
    if a < 10 && b < 10 {
        assert(dec_rep(a)[0] == (48 + a) as u8);
        assert(dec_rep(b)[0] == (48 + b) as u8);
    } else if a < 10 {
        assert(dec_rep(a).len() == 1);
        assert(dec_rep(b).len() >= 2);
    } else if b < 10 {
        assert(dec_rep(a).len() >= 2);
        assert(dec_rep(b).len() == 1);
    } else {
        let da = dec_rep(a);
        let db = dec_rep(b);
        assert(da.last() == (48 + a % 10) as u8);
        assert(db.last() == (48 + b % 10) as u8);
        assert(a % 10 == b % 10);
        assert(dec_rep(a / 10) =~= da.subrange(0, da.len() - 1));
        assert(dec_rep(b / 10) =~= db.subrange(0, db.len() - 1));
        lemma_dec_rep_injective(a / 10, b / 10);
        lemma_fundamental_div_mod(a as int, 10);
        lemma_fundamental_div_mod(b as int, 10);
    }
}

/// Law: the artifact name determines the angle — two frames get the same
/// name only if they are the same frame.
pub proof fn lemma_artifact_name_injective(a: nat, b: nat)
    requires
        artifact_name_text(a) == artifact_name_text(b),
    ensures
        a == b,
{
    let na = artifact_name_text(a);
    let nb = artifact_name_text(b);
    let la = dec_rep(a).len() as int;
    let lb = dec_rep(b).len() as int;
    assert(na.len() == 11 + la + 4);
    assert(nb.len() == 11 + lb + 4);
    assert(la == lb);
    assert forall|k: int| 0 <= k < la implies dec_rep(a)[k] == dec_rep(b)[k] by {
        assert(na[11 + k] == dec_rep(a)[k]);
        assert(nb[11 + k] == dec_rep(b)[k]);
    }
    assert(dec_rep(a) =~= dec_rep(b));
    lemma_dec_rep_injective(a, b);
}

/// Law: a batch over pairwise-distinct sweep angles writes pairwise-distinct
/// artifact names — one output file per frame, with no collision.
pub proof fn lemma_batch_names_distinct(angles: Seq<u16>)
    requires
        forall|i: int, j: int| 0 <= i < j < angles.len() ==> angles[i] != angles[j],
    ensures
        forall|i: int, j: int|
            0 <= i < j < angles.len() ==> artifact_name_text(angles[i] as nat)
                != artifact_name_text(angles[j] as nat),
{
    assert forall|i: int, j: int|
        0 <= i < j < angles.len() implies artifact_name_text(angles[i] as nat)
        != artifact_name_text(angles[j] as nat) by {
        if artifact_name_text(angles[i] as nat) == artifact_name_text(angles[j] as nat) {
            lemma_artifact_name_injective(angles[i] as nat, angles[j] as nat);
        }
    }
}

/// The terminal state of one frame's job. A frame either reaches `Written`
/// or fails at one stage; a failed frame is reported, never retried.
#[derive(Clone, Copy, Debug, PartialEq, Eq, Structural)]
pub enum FrameOutcome {
    /// The artifact was rendered and written out.
    Written,
    /// The colorized text failed to parse as vector graphics.
    ParseFailed,
    /// Rasterization of the parsed tree failed.
    RenderFailed,
    /// The rendered artifact could not be written out.
    WriteFailed,
}

/// Whether an outcome is a failure.
pub open spec fn is_failure(outcome: FrameOutcome) -> bool {
    outcome != FrameOutcome::Written
}

/// How many of the outcomes in `s` are failures.
pub open spec fn failure_count(s: Seq<FrameOutcome>) -> nat
    decreases s.len(),
{
    if s.len() == 0 {
        0
    } else {
        failure_count(s.drop_last()) + if is_failure(s.last()) {
            1nat
        } else {
            0nat
        }
    }
}

proof fn lemma_failure_count_zero(s: Seq<FrameOutcome>)
    ensures
        (failure_count(s) == 0) <==> (forall|i: int| 0 <= i < s.len() ==> !is_failure(s[i])),
    decreases s.len(),
{
    if s.len() > 0 {
        lemma_failure_count_zero(s.drop_last());
        assert(forall|i: int| 0 <= i < s.len() - 1 ==> s[i] == s.drop_last()[i]);
    }
}

/// A whole batch's summary: how many frames were attempted and how many of
/// them failed.
#[derive(Clone, Copy, Debug, PartialEq, Eq, Structural)]
pub struct BatchReport {
    /// The number of frames the batch attempted — always the whole plan.
    pub attempted: usize,
    /// The number of frames whose outcome is a failure.
    pub failed: usize,
}

/// Aggregates per-frame outcomes once every frame was attempted: each frame
/// is counted exactly once, and the batch succeeded — the process may exit
/// zero — if and only if no frame failed.
pub fn summarize(outcomes: &Vec<FrameOutcome>) -> (r: BatchReport)
    ensures
        r.attempted == outcomes@.len(),
        r.failed == failure_count(outcomes@),
        (r.failed == 0) <==> (forall|i: int|
            0 <= i < outcomes@.len() ==> !is_failure(outcomes@[i])),
{
    let mut failed: usize = 0;
    let mut k: usize = 0;
    while k < outcomes.len()
        invariant
            k <= outcomes@.len(),
            failed <= k,
            failed == failure_count(outcomes@.subrange(0, k as int)),
        decreases outcomes@.len() - k,
    {
        let o = outcomes[k];
        proof {
            assert(outcomes@.subrange(0, k + 1).drop_last() =~= outcomes@.subrange(0, k as int));
            assert(outcomes@.subrange(0, k + 1).last() == outcomes@[k as int]);
        }
        if o != FrameOutcome::Written {
            failed = failed + 1;
        }
        k = k + 1;
    }
    proof {
        assert(outcomes@.subrange(0, outcomes@.len() as int) =~= outcomes@);
        lemma_failure_count_zero(outcomes@);
    }
    BatchReport { attempted: outcomes.len(), failed }
}

} // verus!
