//! Stage counters: bounded signed modifiers that scale a stat.
//!
//! A stage `s` in `[-6, 6]` scales a stat by `1 + s/4` when `s >= 0` and by
//! the reciprocal `1 / (1 + |s|/4)` when `s < 0`. Both are exact fractions,
//! kept here as a numerator/denominator pair of integers.

use vstd::prelude::*;

verus! {

/// Largest magnitude a stage counter may hold.
pub const STAGE_LIMIT: i32 = 6;

/// A stage step is a quarter: the multiplier for stage `s >= 0` is `(4 + s) / 4`.
pub const STAGE_STEP_DEN: u32 = 4;

/// What a stage counter becomes once forced back into `[-6, 6]`.
pub open spec fn clamp_stage(v: int) -> int {
    if v < -6 {
        -6
    } else if v > 6 {
        6
    } else {
        v
    }
}

/// Numerator of the stage multiplier, as an exact fraction over `stage_mult_den`.
pub open spec fn stage_mult_num(s: int) -> int {
    if s >= 0 {
        4 + s
    } else {
        4
    }
}

/// Denominator of the stage multiplier.
pub open spec fn stage_mult_den(s: int) -> int {
    if s >= 0 {
        4
    } else {
        4 - s
    }
}

/// Both parts of the stage multiplier are positive, so the fraction is a
/// well-formed positive rational for every stage.
pub proof fn lemma_stage_multiplier_positive(s: int)
    ensures
        s >= -6 ==> stage_mult_num(s) > 0,
        stage_mult_den(s) > 0,
{
}

/// Opposite stages cancel exactly: the product of the multipliers for `s` and
/// `-s` is the rational one, for every stage in `[-6, 6]`. At `s == 0` each
/// factor is itself one.
pub proof fn lemma_stage_multiplier_reciprocal(s: int)
    requires
        -6 <= s <= 6,
    ensures
        stage_mult_num(s) * stage_mult_num(-s) == stage_mult_den(s) * stage_mult_den(-s),
        s == 0 ==> stage_mult_num(s) == stage_mult_den(s),
{
}

/// The fixed points of the curve: stage 4 doubles a stat, stage -4 halves it,
/// stage 0 leaves it alone.
pub proof fn lemma_stage_multiplier_values()
    ensures
        stage_mult_num(4) == 2 * stage_mult_den(4),
        2 * stage_mult_num(-4) == stage_mult_den(-4),
        stage_mult_num(0) == stage_mult_den(0),
{
}

/// Clamping always lands in `[-6, 6]`, is a no-op on a value already there,
/// and so is idempotent.
pub proof fn lemma_clamp_stage(v: int)
    ensures
        -6 <= clamp_stage(v) <= 6,
        -6 <= v <= 6 ==> clamp_stage(v) == v,
        clamp_stage(clamp_stage(v)) == clamp_stage(v),
{
}

/// The stage multiplier as a `(numerator, denominator)` pair.
pub fn stage_multiplier(stages: i32) -> (r: (u32, u32))
    requires
        -STAGE_LIMIT <= stages <= STAGE_LIMIT,
    ensures
        r.0 == stage_mult_num(stages as int),
        r.1 == stage_mult_den(stages as int),
{
    if stages < 0 {
        (STAGE_STEP_DEN, STAGE_STEP_DEN + ((0 - stages) as u32))
    } else {
        (STAGE_STEP_DEN + (stages as u32), STAGE_STEP_DEN)
    }
}

/// One clamped stage update: `current` moved by `delta`, then forced back
/// into `[-STAGE_LIMIT, STAGE_LIMIT]`. The sum is taken over a wider integer
/// type, so no delta is extreme enough to misbehave before the clamp.
pub fn apply_stage_delta(current: i32, delta: i32) -> (r: i32)
    ensures
        r == clamp_stage(current + delta),
        -STAGE_LIMIT <= r <= STAGE_LIMIT,
{
    let sum: i64 = current as i64 + delta as i64;
    let limit: i64 = STAGE_LIMIT as i64;
    if sum < -limit {
        -STAGE_LIMIT
    } else if sum > limit {
        STAGE_LIMIT
    } else {
        sum as i32
    }
}

} // verus!
