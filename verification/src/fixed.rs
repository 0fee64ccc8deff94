//! Fixed-point arithmetic: all world coordinates, speeds and times are i64
//! counts of 1/120000 of a world unit.  120000 was chosen because every
//! constant of the movement model is an exact multiple of it: 1/16 of a unit
//! (the step-up quantum), 1e-4 (the resolution epsilon), 4.317/60 and
//! 5.612/60 (walk and sprint speed per tick unit) and their 2.5-fold flying
//! variants, 0.01 (gravity), 0.15 (jump impulse), 0.3 (terminal fall speed
//! and the half footprint) and 0.05 (the ground probe depth).

use vstd::prelude::*;

verus! {

use vstd::arithmetic::div_mod::lemma_fundamental_div_mod;
use vstd::arithmetic::div_mod::lemma_div_is_ordered;
use vstd::arithmetic::div_mod::lemma_div_pos_is_pos;
use vstd::arithmetic::div_mod::lemma_mod_division_less_than_divisor;
use vstd::arithmetic::div_mod::lemma_remainder_lower;

/// Sub-units per world unit.
pub const SCALE: i64 = 120000;

/// Resolution epsilon: 1e-4 world units.
pub const EPS: i64 = 12;

/// Half of the entity's horizontal footprint: 0.3 world units.
pub const FOOT_HALF: i64 = 36000;

/// Height of the default entity: 1.8 world units.
pub const PLAYER_HEIGHT: i64 = 216000;

/// Depth of the thin on-ground probe box: 0.05 world units.
pub const GROUND_DEPTH: i64 = 6000;

/// One step-up quantum: 1/16 of a world unit.
pub const STEP_UNIT: i64 = 7500;

/// Vertical velocity set by a jump: 0.15 units per tick unit.
pub const JUMP_VEL: i64 = 18000;

/// Gravity: vertical velocity loses 0.01 units per tick unit, per tick unit.
pub const GRAVITY_ACCEL: i64 = 1200;

/// Terminal fall speed: 0.3 units per tick unit (as a positive magnitude).
pub const TERMINAL_VEL: i64 = 36000;

/// Walking speed: 4.317/60 units per tick unit.
pub const WALK_SPEED: i64 = 8634;

/// Sprinting speed: 5.612/60 units per tick unit.
pub const SPRINT_SPEED: i64 = 11224;

/// Largest magnitude either factor of `fmul_exec` may have.
pub const FMUL_ARG_LIMIT: i64 = 200_000_000;

/// Magnitude bound on the result of `fmul_exec` under its requires.
pub const FMUL_RES_LIMIT: i64 = 340_000_000_000;

/// Division that rounds toward zero, as a float-to-integer cast does.
pub open spec fn trunc_div(a: int, d: int) -> int {
    if a >= 0 {
        a / d
    } else {
        -((-a) / d)
    }
}

/// The fixed-point product: (a * b) / SCALE, rounded toward zero.
pub open spec fn fmul(a: int, b: int) -> int {
    trunc_div(a * b, SCALE as int)
}

/// Rounding toward zero never moves the scaled value by a whole divisor:
/// `trunc_div(a, d) * d` lies strictly within `d` of `a`.
pub proof fn lemma_trunc_div_close(a: int, d: int)
    requires
        d >= 1,
    ensures
        a - d < trunc_div(a, d) * d,
        trunc_div(a, d) * d < a + d,
        a >= 0 ==> trunc_div(a, d) * d <= a,
        a <= 0 ==> trunc_div(a, d) * d >= a,
{
    if a >= 0 {
        let q = a / d;
        lemma_fundamental_div_mod(a, d);
        lemma_mod_division_less_than_divisor(a, d);
        lemma_remainder_lower(a, d);
        assert(q * d == d * q) by (nonlinear_arith);
    } else {
        let q = (-a) / d;
        lemma_fundamental_div_mod(-a, d);
        lemma_mod_division_less_than_divisor(-a, d);
        lemma_remainder_lower(-a, d);
        assert((-q) * d == -(d * q)) by (nonlinear_arith);
    }
}

/// Rounding toward zero keeps the magnitude bounded: if `|a| <= m` then
/// `|trunc_div(a, d)| <= m / d`, and the result never grows past `|a|`.
pub proof fn lemma_trunc_div_bound(a: int, d: int, m: int)
    requires
        d >= 1,
        0 <= m,
        -m <= a <= m,
    ensures
        -(m / d) <= trunc_div(a, d) <= m / d,
        -m <= trunc_div(a, d) <= m,
        a >= 0 ==> trunc_div(a, d) >= 0,
        a <= 0 ==> trunc_div(a, d) <= 0,
{
    if a >= 0 {
        lemma_div_is_ordered(a, m, d);
        lemma_div_pos_is_pos(a, d);
        vstd::arithmetic::div_mod::lemma_div_nonincreasing(a, d);
        vstd::arithmetic::div_mod::lemma_div_nonincreasing(m, d);
        lemma_div_pos_is_pos(m, d);
    } else {
        lemma_div_is_ordered(-a, m, d);
        lemma_div_pos_is_pos(-a, d);
        vstd::arithmetic::div_mod::lemma_div_nonincreasing(-a, d);
        vstd::arithmetic::div_mod::lemma_div_nonincreasing(m, d);
        lemma_div_pos_is_pos(m, d);
    }
}

/// Division rounding toward zero on nonnegative inputs agrees with the
/// built-in (floor) division, so the sign split below is exact.
pub fn trunc_div_scale(a: i64) -> (r: i64)
    requires
        -0x4000_0000_0000_0000 < a < 0x4000_0000_0000_0000,
    ensures
        r as int == trunc_div(a as int, SCALE as int),
        a >= 0 ==> 0 <= r as int <= a as int,
        a <= 0 ==> a as int <= r as int <= 0,
{
    proof {
        lemma_trunc_div_bound(a as int, SCALE as int, if a >= 0 { a as int } else { -(a as int) });
    }
    if a >= 0 {
        let q: u64 = (a as u64) / (SCALE as u64);
        q as i64
    } else {
        let n: u64 = (-a) as u64;
        let q: u64 = n / (SCALE as u64);
        -(q as i64)
    }
}

/// The fixed-point product of two bounded factors, exact per `fmul`.
pub fn fmul_exec(a: i64, b: i64) -> (r: i64)
    requires
        -FMUL_ARG_LIMIT <= a <= FMUL_ARG_LIMIT,
        -FMUL_ARG_LIMIT <= b <= FMUL_ARG_LIMIT,
    ensures
        r as int == fmul(a as int, b as int),
        -FMUL_RES_LIMIT <= r <= FMUL_RES_LIMIT,
{
    proof {
        assert(-40_000_000_000_000_000int <= a as int * b as int <= 40_000_000_000_000_000int)
            by (nonlinear_arith)
            requires
                -200_000_000 <= a as int <= 200_000_000,
                -200_000_000 <= b as int <= 200_000_000,
        ;
    }
    let p: i64 = a * b;
    let r: i64 = trunc_div_scale(p);
    proof {
        lemma_trunc_div_bound(p as int, SCALE as int, 40_000_000_000_000_000int);
        assert(40_000_000_000_000_000int / (SCALE as int) == 333_333_333_333int);
    }
    r
}

/// Fixed-point products of nonnegative factors are nonnegative, and a
/// product with a zero factor is zero.
pub proof fn lemma_fmul_signs(a: int, b: int)
    ensures
        a >= 0 && b >= 0 ==> fmul(a, b) >= 0,
        a == 0 || b == 0 ==> fmul(a, b) == 0,
{
    if a >= 0 && b >= 0 {
        assert(a * b >= 0) by (nonlinear_arith)
            requires a >= 0 && b >= 0,
        ;
        lemma_div_pos_is_pos(a * b, SCALE as int);
    }
    if a == 0 || b == 0 {
        assert(a * b == 0) by (nonlinear_arith)
            requires a == 0 || b == 0,
        ;
        assert(trunc_div(0, SCALE as int) == 0);
    }
}

} // verus!
