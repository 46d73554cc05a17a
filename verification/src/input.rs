//! The input controller's arithmetic: discrete key events set a target axis,
//! and per fixed step the paddle velocity is moved a fixed fraction of the
//! remaining distance toward `axis * PADDLE_SPEED` — an exponential approach
//! that never snaps and never overshoots.

use crate::VEL_LIMIT;
use vstd::arithmetic::div_mod::{
    lemma_basic_div, lemma_div_is_ordered, lemma_div_multiples_vanish, lemma_div_non_zero,
    lemma_div_pos_is_pos,
};
use vstd::arithmetic::mul::{lemma_mul_inequality, lemma_mul_nonnegative};
use vstd::prelude::*;

verus! {

/// A logical key identifier, as the outside event source reports it: move up,
/// move down, quit, or anything else (ignored).
#[derive(Clone, Copy, PartialEq, Eq, Structural, Debug)]
pub enum Key {
    Up,
    Down,
    Quit,
    Other,
}

/// One smoothing step: from `v`, move the fraction `num / den` of the
/// remaining distance toward `target`, rounding the step toward zero.
pub open spec fn spec_lerp_toward(v: int, target: int, num: int, den: int) -> int {
    if v <= target {
        v + ((target - v) * num) / den
    } else {
        v - ((v - target) * num) / den
    }
}

/// The value after `n` smoothing steps from `v` toward `target`.
pub open spec fn smooth_iter(v: int, target: int, num: int, den: int, n: nat) -> int
    decreases n,
{
    if n == 0 {
        v
    } else {
        smooth_iter(spec_lerp_toward(v, target, num, den), target, num, den, (n - 1) as nat)
    }
}

/// A gap scaled by a fraction of at most one keeps its sign and never grows:
/// `0 <= (gap * num) / den <= gap`.
pub proof fn lemma_scaled_gap_bounds(gap: int, num: int, den: int)
    requires
        0 <= gap,
        0 < den,
        0 <= num <= den,
    ensures
        0 <= (gap * num) / den <= gap,
{
    lemma_mul_nonnegative(gap, num);
    lemma_div_pos_is_pos(gap * num, den);
    lemma_mul_inequality(num, den, gap);
    assert(gap * num == num * gap) by (nonlinear_arith);
    assert(gap * den == den * gap) by (nonlinear_arith);
    lemma_div_is_ordered(gap * num, gap * den, den);
    lemma_div_multiples_vanish(gap, den);
    assert(den * gap == gap * den) by (nonlinear_arith);
}

/// One smoothing step lands between the start and the target: the velocity
/// approaches monotonically and never overshoots.
pub proof fn lemma_lerp_toward_between(v: int, target: int, num: int, den: int)
    requires
        0 < den,
        0 <= num <= den,
    ensures
        v <= target ==> v <= spec_lerp_toward(v, target, num, den) <= target,
        target <= v ==> target <= spec_lerp_toward(v, target, num, den) <= v,
{
    if v <= target {
        lemma_scaled_gap_bounds(target - v, num, den);
    } else {
        lemma_scaled_gap_bounds(v - target, num, den);
    }
}

/// Any number of smoothing steps stays between the start and the target: the
/// smoothed velocity never overshoots a fixed target.
pub proof fn lemma_smoothing_never_overshoots(v: int, target: int, num: int, den: int, n: nat)
    requires
        0 < den,
        0 <= num <= den,
    ensures
        v <= target ==> v <= smooth_iter(v, target, num, den, n) <= target,
        target <= v ==> target <= smooth_iter(v, target, num, den, n) <= v,
    decreases n,
{
    if n > 0 {
        lemma_lerp_toward_between(v, target, num, den);
        lemma_smoothing_never_overshoots(
            spec_lerp_toward(v, target, num, den),
            target,
            num,
            den,
            (n - 1) as nat,
        );
    }
}

/// Unfolding the iteration from the far end: `n + 1` steps are `n` steps
/// followed by one more.
pub proof fn lemma_smooth_iter_step(v: int, target: int, num: int, den: int, n: nat)
    ensures
        smooth_iter(v, target, num, den, n + 1) == spec_lerp_toward(
            smooth_iter(v, target, num, den, n),
            target,
            num,
            den,
        ),
    decreases n,
{
    reveal_with_fuel(smooth_iter, 2);
    if n > 0 {
        lemma_smooth_iter_step(spec_lerp_toward(v, target, num, den), target, num, den, (n - 1) as nat);
    }
}

/// A velocity already within less than `den / num` of the target stays put:
/// the approach is asymptotic, not oscillating.
pub proof fn lemma_smoothing_fixed_point(v: int, target: int, num: int, den: int, n: nat)
    requires
        0 < den,
        0 < num <= den,
        v <= target,
        (target - v) * num < den,
    ensures
        smooth_iter(v, target, num, den, n) == v,
    decreases n,
{
    if n > 0 {
        lemma_mul_nonnegative(target - v, num);
        lemma_basic_div((target - v) * num, den);
        lemma_smoothing_fixed_point(v, target, num, den, (n - 1) as nat);
    }
}

/// Convergence: starting at or below the target, after at least `target - v`
/// steps the remaining gap is below `den / num`, and the value still has not
/// overshot.  For the paddle constants (target 1000, fraction 10/60) this
/// leaves the velocity within 5 units of full speed.
pub proof fn lemma_smoothing_converges(v: int, target: int, num: int, den: int, n: nat)
    requires
        0 < den,
        0 < num <= den,
        v <= target,
        n >= target - v,
    ensures
        v <= smooth_iter(v, target, num, den, n) <= target,
        (target - smooth_iter(v, target, num, den, n)) * num < den,
    decreases n,
{
    lemma_smoothing_never_overshoots(v, target, num, den, n);
    let gap = target - v;
    if gap * num < den {
        lemma_smoothing_fixed_point(v, target, num, den, n);
    } else {
        let delta = (gap * num) / den;
        lemma_scaled_gap_bounds(gap, num, den);
        lemma_div_non_zero(gap * num, den);
        let v2 = spec_lerp_toward(v, target, num, den);
        assert(v2 == v + delta);
        assert(n >= 1);
        lemma_smoothing_converges(v2, target, num, den, (n - 1) as nat);
        assert(smooth_iter(v, target, num, den, n) == smooth_iter(v2, target, num, den, (n - 1) as nat));
    }
}

/// The mirror of `lemma_smoothing_fixed_point`: a velocity within less than
/// `den / num` above the target stays put.
pub proof fn lemma_smoothing_fixed_point_from_above(v: int, target: int, num: int, den: int, n: nat)
    requires
        0 < den,
        0 < num <= den,
        target <= v,
        (v - target) * num < den,
    ensures
        smooth_iter(v, target, num, den, n) == v,
    decreases n,
{
    if n > 0 {
        lemma_mul_nonnegative(v - target, num);
        lemma_basic_div((v - target) * num, den);
        lemma_smoothing_fixed_point_from_above(v, target, num, den, (n - 1) as nat);
    }
}

/// The mirror of `lemma_smoothing_converges`: starting above the target — a
/// paddle still moving when the axis clears — the velocity decays to within
/// `den / num` of the target and never undershoots it.
pub proof fn lemma_smoothing_converges_from_above(v: int, target: int, num: int, den: int, n: nat)
    requires
        0 < den,
        0 < num <= den,
        target <= v,
        n >= v - target,
    ensures
        target <= smooth_iter(v, target, num, den, n) <= v,
        (smooth_iter(v, target, num, den, n) - target) * num < den,
    decreases n,
{
    lemma_smoothing_never_overshoots(v, target, num, den, n);
    let gap = v - target;
    if gap * num < den {
        lemma_smoothing_fixed_point_from_above(v, target, num, den, n);
    } else {
        let delta = (gap * num) / den;
        lemma_scaled_gap_bounds(gap, num, den);
        lemma_div_non_zero(gap * num, den);
        let v2 = spec_lerp_toward(v, target, num, den);
        assert(v2 == v - delta);
        assert(n >= 1);
        lemma_smoothing_converges_from_above(v2, target, num, den, (n - 1) as nat);
        assert(smooth_iter(v, target, num, den, n) == smooth_iter(
            v2,
            target,
            num,
            den,
            (n - 1) as nat,
        ));
    }
}

/// One executable smoothing step, exactly as `spec_lerp_toward` says.
pub fn lerp_toward(v: i64, target: i64, num: i64, den: i64) -> (r: i64)
    requires
        0 < den <= 1_000_000,
        0 <= num <= den,
        -VEL_LIMIT <= v <= VEL_LIMIT,
        -VEL_LIMIT <= target <= VEL_LIMIT,
    ensures
        r == spec_lerp_toward(v as int, target as int, num as int, den as int),
{
    if v <= target {
        let gap: i64 = target - v;
        proof {
            assert(gap * num <= 2_000_000_000_000_000_000) by (nonlinear_arith)
                requires
                    0 <= gap <= 2_000_000_000,
                    0 <= num <= 1_000_000,
            ;
            lemma_scaled_gap_bounds(gap as int, num as int, den as int);
        }
        let delta: i64 = (gap * num) / den;
        v + delta
    } else {
        let gap: i64 = v - target;
        proof {
            assert(gap * num <= 2_000_000_000_000_000_000) by (nonlinear_arith)
                requires
                    0 <= gap <= 2_000_000_000,
                    0 <= num <= 1_000_000,
            ;
            lemma_scaled_gap_bounds(gap as int, num as int, den as int);
        }
        let delta: i64 = (gap * num) / den;
        v - delta
    }
}

} // verus!
