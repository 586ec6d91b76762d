use vstd::prelude::*;
use vstd::arithmetic::div_mod::{lemma_div_is_ordered, lemma_div_multiples_vanish, lemma_div_pos_is_pos};
use vstd::arithmetic::mul::{lemma_mul_inequality, lemma_mul_is_commutative, lemma_mul_nonnegative};
use crate::rotation::{COMPONENT_BOUND, RotationVector, lies_between, sq_mag};

verus! {

/// Squared convergence threshold. The threshold itself is 0.01 radian, which
/// is exactly one fixed-point unit, so a delta has converged precisely when
/// its squared magnitude is below one unit squared.
pub const CONVERGENCE_SQ: i64 = 1;

/// Largest gain denominator `step` accepts; keeps the product of a component
/// gap with the numerator within an `i64`.
pub const GAIN_DEN_BOUND: u64 = 1_000_000_000;

/// `gap * num / den`: the rational product, rounded toward zero.
pub open spec fn scaled(gap: int, num: int, den: int) -> int
    recommends
        0 < num <= den,
{
    if gap >= 0 {
        gap * num / den
    } else {
        -((-gap) * num / den)
    }
}

/// A proportional step with gain at most one never overshoots: the scaled gap
/// keeps the sign of the gap and is no larger in magnitude.
pub proof fn lemma_scaled_bounds(gap: int, num: int, den: int)
    requires
        0 < num <= den,
    ensures
        gap >= 0 ==> 0 <= scaled(gap, num, den) <= gap,
        gap < 0 ==> gap <= scaled(gap, num, den) <= 0,
{
    if gap >= 0 {
        lemma_scaled_bounds_nonneg(gap, num, den);
    } else {
        lemma_scaled_bounds_nonneg(-gap, num, den);
    }
}

proof fn lemma_scaled_bounds_nonneg(gap: int, num: int, den: int)
    requires
        0 <= gap,
        0 < num <= den,
    ensures
        0 <= gap * num / den <= gap,
{
    lemma_mul_nonnegative(gap, num);
    lemma_div_pos_is_pos(gap * num, den);
    lemma_mul_inequality(num, den, gap);
    lemma_mul_is_commutative(num, gap);
    lemma_mul_is_commutative(den, gap);
    lemma_div_is_ordered(gap * num, gap * den, den);
    lemma_div_multiples_vanish(gap, den);
}

/// A squared magnitude below one unit means the vector is exactly zero.
pub proof fn lemma_sub_unit_magnitude_is_zero(x: int, y: int, z: int)
    ensures
        sq_mag(x, y, z) < 1 <==> x == 0 && y == 0 && z == 0,
{
    assert(x * x >= 0 && y * y >= 0 && z * z >= 0) by (nonlinear_arith);
    if x != 0 {
        assert(x * x >= 1) by (nonlinear_arith)
            requires
                x != 0,
        ;
    }
    if y != 0 {
        assert(y * y >= 1) by (nonlinear_arith)
            requires
                y != 0,
        ;
    }
    if z != 0 {
        assert(z * z >= 1) by (nonlinear_arith)
            requires
                z != 0,
        ;
    }
}

/// One component of the interpolation delta: the gap scaled by the gain,
/// rounded toward zero.
fn scaled_gap(gap: i64, num: u64, den: u64) -> (r: i64)
    requires
        -2 * COMPONENT_BOUND <= gap <= 2 * COMPONENT_BOUND,
        0 < num <= den <= GAIN_DEN_BOUND,
    ensures
        r == scaled(gap as int, num as int, den as int),
{
    proof {
        lemma_scaled_bounds(gap as int, num as int, den as int);
    }
    if gap >= 0 {
        let g: u64 = gap as u64;
        assert(g * num <= 2_000_000_000_000_000_000) by (nonlinear_arith)
            requires
                g <= 2_000_000_000,
                num <= 1_000_000_000,
        ;
        let q: u64 = g * num / den;
        q as i64
    } else {
        let g: u64 = (-gap) as u64;
        assert(g * num <= 2_000_000_000_000_000_000) by (nonlinear_arith)
            requires
                g <= 2_000_000_000,
                num <= 1_000_000_000,
        ;
        let q: u64 = g * num / den;
        -(q as i64)
    }
}

/// Pose interpolation step.
///
/// The gain is the rational `gain_num / gain_den`, in (0, 1]; the reference
/// choreography uses 1/5 (a gain of 0.2). The returned delta is the
/// component-wise product `(target - current) * gain`, rounded toward zero,
/// and the returned flag reports convergence: the Euclidean magnitude of the
/// delta is below the threshold of 0.01 radian, which for fixed-point
/// components means its squared magnitude is below `CONVERGENCE_SQ`. A delta
/// of magnitude exactly 0.01 radian has not converged.
///
/// The caller applies `current + delta`; the delta never overshoots, so the
/// sum stays between `current` and `target` component-wise.
pub fn step(current: RotationVector, target: RotationVector, gain_num: u64, gain_den: u64) -> (r: (
    RotationVector,
    bool,
))
    requires
        current.in_bounds(),
        target.in_bounds(),
        0 < gain_num <= gain_den <= GAIN_DEN_BOUND,
    ensures
        r.0.x == scaled(target.x - current.x, gain_num as int, gain_den as int),
        r.0.y == scaled(target.y - current.y, gain_num as int, gain_den as int),
        r.0.z == scaled(target.z - current.z, gain_num as int, gain_den as int),
        r.1 <==> sq_mag(r.0.x as int, r.0.y as int, r.0.z as int) < CONVERGENCE_SQ,
        lies_between(current.x as int, target.x as int, current.x + r.0.x),
        lies_between(current.y as int, target.y as int, current.y + r.0.y),
        lies_between(current.z as int, target.z as int, current.z + r.0.z),
{
    let dx: i64 = scaled_gap(target.x - current.x, gain_num, gain_den);
    let dy: i64 = scaled_gap(target.y - current.y, gain_num, gain_den);
    let dz: i64 = scaled_gap(target.z - current.z, gain_num, gain_den);
    let converged: bool = dx == 0 && dy == 0 && dz == 0;
    proof {
        lemma_scaled_bounds(target.x - current.x, gain_num as int, gain_den as int);
        lemma_scaled_bounds(target.y - current.y, gain_num as int, gain_den as int);
        lemma_scaled_bounds(target.z - current.z, gain_num as int, gain_den as int);
        lemma_sub_unit_magnitude_is_zero(dx as int, dy as int, dz as int);
    }
    (RotationVector { x: dx, y: dy, z: dz }, converged)
}

} // verus!
