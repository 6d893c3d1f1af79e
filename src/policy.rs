//! The confidence policy: a score out of 100 and a status label.

use vstd::prelude::*;

verus! {

/// The verdict label of a verification run.
#[derive(Debug, Clone, Copy, PartialEq, Eq, Structural)]
pub enum Status {
    Verified,
    Partial,
    Error,
}

impl Status {
    /// The label as it appears on the wire.
    pub fn as_str(&self) -> (r: &'static str)
        ensures
            *self == Status::Verified ==> r@ == "verified"@,
            *self == Status::Partial ==> r@ == "partial"@,
            *self == Status::Error ==> r@ == "error"@,
    {
        match self {
            Status::Verified => "verified",
            Status::Partial => "partial",
            Status::Error => "error",
        }
    }
}

/// Percentage of verified chunks, rounded down; exactly 100 once every chunk
/// verified; 0 for a task without chunks.
pub open spec fn score_of(verified: nat, total: nat) -> nat {
    if total == 0 {
        0
    } else if verified >= total {
        100
    } else {
        (100 * verified) / total
    }
}

/// "verified" from a score of 95 up, "partial" below; "error" when there was
/// nothing to score.
pub open spec fn status_of(score: nat, total: nat) -> Status {
    if total == 0 {
        Status::Error
    } else if score >= 95 {
        Status::Verified
    } else {
        Status::Partial
    }
}

/// Scores a run from its verified and total chunk counts.
pub fn confidence(verified_count: usize, total_count: usize) -> (r: (u8, Status))
    ensures
        r.0 as nat == score_of(verified_count as nat, total_count as nat),
        r.1 == status_of(r.0 as nat, total_count as nat),
        r.0 <= 100,
{
    if total_count == 0 {
        return (0, Status::Error);
    }
    let score: u8 = if verified_count >= total_count {
        100
    } else {
        let v = verified_count as u128;
        let t = total_count as u128;
        assert(v * 100 <= 100 * 0xffff_ffff_ffff_ffffu128) by (nonlinear_arith)
            requires v <= 0xffff_ffff_ffff_ffffu128;
        let q = (v * 100) / t;
        assert(q < 100) by (nonlinear_arith)
            requires q as int == (v as int * 100) / (t as int), v < t, t > 0;
        q as u8
    };
    let status = if score >= 95 {
        Status::Verified
    } else {
        Status::Partial
    };
    (score, status)
}

/// The score never decreases as more chunks verify out of a fixed total.
pub proof fn lemma_score_monotonic(v1: nat, v2: nat, total: nat)
    requires
        v1 <= v2,
    ensures
        score_of(v1, total) <= score_of(v2, total),
{
    if total > 0 {
        if v2 < total {
            assert((100 * v1) / total <= (100 * v2) / total) by (nonlinear_arith)
                requires v1 <= v2, total > 0;
        } else if v1 < total {
            assert((100 * v1) / total < 100) by (nonlinear_arith)
                requires v1 < total, total > 0;
        }
    }
}

/// For a task with chunks, the score is 100 exactly when every chunk verified.
pub proof fn lemma_score_full_iff_all_verified(verified: nat, total: nat)
    requires
        total > 0,
        verified <= total,
    ensures
        (score_of(verified, total) == 100) <==> verified == total,
{
    if verified < total {
        assert((100 * verified) / total < 100) by (nonlinear_arith)
            requires verified < total, total > 0;
    }
}

/// For a task with chunks, the status is "verified" exactly when the score is
/// at least 95.
pub proof fn lemma_status_verified_iff_high_score(verified: nat, total: nat)
    requires
        total > 0,
    ensures
        (status_of(score_of(verified, total), total) == Status::Verified) <==> score_of(
            verified,
            total,
        ) >= 95,
{
}

} // verus!
