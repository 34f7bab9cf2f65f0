//! Fixed-point scalars and trigonometry.
//!
//! The library works on exact integers throughout: lengths are measured in
//! micro-units (one unit is `1_000_000` micro-units), angles in microradians,
//! and dimensionless factors such as sine values are scaled by `FX_UNIT`.
//! The sine is a parabolic half-wave approximation: it is exactly `0` at `0`
//! and at half a turn, exactly `FX_UNIT` at a quarter turn, periodic, and
//! always within `[-FX_UNIT, FX_UNIT]`.

use vstd::prelude::*;
use vstd::arithmetic::div_mod::{
    lemma_fundamental_div_mod_converse_div,
    lemma_fundamental_div_mod, lemma_fundamental_div_mod_converse_mod,
    lemma_mod_division_less_than_divisor,
};

verus! {

/// The fixed-point scale: this value stands for the real number one.
pub const FX_UNIT: i64 = 65536;

/// Half a turn (pi) in microradians, rounded down.
pub const HALF_TURN_URAD: i64 = 3141592;

/// A quarter turn (pi / 2) in microradians; exactly half of `HALF_TURN_URAD`.
pub const QUARTER_TURN_URAD: i64 = 1570796;

/// A full turn in microradians; exactly twice `HALF_TURN_URAD`.
pub const FULL_TURN_URAD: i64 = 6283184;

/// One length unit in micro-units.
pub const MICRO_UNIT: i64 = 1000000;

/// The parabolic half-wave: the sine on `[0, HALF_TURN_URAD]`, scaled by `FX_UNIT`.
pub open spec fn sin_half_wave(t: int) -> int {
    (4 * FX_UNIT) * (t * (HALF_TURN_URAD - t)) / (HALF_TURN_URAD * HALF_TURN_URAD)
}

/// The fixed-point sine of an angle in microradians, defined for every angle
/// by reduction modulo a full turn.
pub open spec fn sin_fx_spec(a: int) -> int {
    let m = a % (FULL_TURN_URAD as int);
    if m < HALF_TURN_URAD {
        sin_half_wave(m)
    } else {
        -sin_half_wave(m - HALF_TURN_URAD)
    }
}

/// The fixed-point cosine: the sine shifted by a quarter turn.
pub open spec fn cos_fx_spec(a: int) -> int {
    sin_fx_spec(a + QUARTER_TURN_URAD)
}

proof fn lemma_sin_half_wave_bounds(t: int)
    requires
        0 <= t <= HALF_TURN_URAD,
    ensures
        0 <= sin_half_wave(t) <= FX_UNIT,
{
    let h = HALF_TURN_URAD as int;
    let u = FX_UNIT as int;
    assert(0 <= t * (h - t) && 4 * (t * (h - t)) <= h * h) by (nonlinear_arith)
        requires
            0 <= t <= h,
    ;
    let prod = t * (h - t);
    assert((4 * u) * prod <= u * (h * h) && 0 <= (4 * u) * prod) by (nonlinear_arith)
        requires
            0 <= prod,
            4 * prod <= h * h,
            u == 65536,
    ;
    vstd::arithmetic::div_mod::lemma_div_is_ordered((4 * u) * prod, u * (h * h), h * h);
    vstd::arithmetic::div_mod::lemma_div_multiples_vanish(u, h * h);
    vstd::arithmetic::div_mod::lemma_div_pos_is_pos((4 * u) * prod, h * h);
}

/// The sine is bounded by the fixed-point unit for every angle.
pub proof fn lemma_sin_fx_bounds(a: int)
    ensures
        -FX_UNIT <= sin_fx_spec(a) <= FX_UNIT,
{
    let f = FULL_TURN_URAD as int;
    let m = a % f;
    lemma_mod_division_less_than_divisor(a, f);
    if m < HALF_TURN_URAD {
        lemma_sin_half_wave_bounds(m);
    } else {
        lemma_sin_half_wave_bounds(m - HALF_TURN_URAD);
    }
}

/// Reduces an angle in microradians to `[0, FULL_TURN_URAD)`, the Euclidean
/// remainder modulo a full turn.
pub fn reduce_turn(a: i64) -> (m: i64)
    ensures
        m == (a as int) % (FULL_TURN_URAD as int),
        0 <= m < FULL_TURN_URAD,
{
    let f = FULL_TURN_URAD;
    if a >= 0 {
        let m = a % f;
        proof {
            lemma_mod_division_less_than_divisor(a as int, f as int);
        }
        m
    } else {
        let b = -(a + 1);
        let k = b % f;
        proof {
            lemma_mod_division_less_than_divisor(b as int, f as int);
            lemma_fundamental_div_mod(b as int, f as int);
            let q = (b as int) / (f as int);
            assert(a as int == (-q - 1) * (f as int) + ((f as int) - 1 - (k as int))) by (nonlinear_arith)
                requires
                    b as int == q * (f as int) + (k as int),
                    a as int == -(b as int) - 1,
            ;
            lemma_fundamental_div_mod_converse_mod(a as int, f as int, -q - 1, (f as int) - 1 - (k as int));
        }
        f - 1 - k
    }
}

/// The fixed-point sine of an angle in microradians.
pub fn sin_fx(a: i64) -> (r: i64)
    ensures
        r == sin_fx_spec(a as int),
        -FX_UNIT <= r <= FX_UNIT,
{
    let m = reduce_turn(a);
    proof {
        lemma_sin_fx_bounds(a as int);
    }
    if m < HALF_TURN_URAD {
        sin_half_wave_exec(m)
    } else {
        -sin_half_wave_exec(m - HALF_TURN_URAD)
    }
}

/// The fixed-point cosine of an angle in microradians.
pub fn cos_fx(a: i64) -> (r: i64)
    ensures
        r == cos_fx_spec(a as int),
        -FX_UNIT <= r <= FX_UNIT,
{
    let m = reduce_turn(a);
    let r = sin_fx(m + QUARTER_TURN_URAD);
    proof {
        let f = FULL_TURN_URAD as int;
        let q = QUARTER_TURN_URAD as int;
        lemma_mod_division_less_than_divisor(a as int, f);
        vstd::arithmetic::div_mod::lemma_mod_twice(a as int, f);
        vstd::arithmetic::div_mod::lemma_add_mod_noop(m as int, q, f);
        vstd::arithmetic::div_mod::lemma_add_mod_noop(a as int, q, f);
        vstd::arithmetic::div_mod::lemma_small_mod(q as nat, f as nat);
        assert((m + q) % f == ((a as int) + q) % f);
    }
    r
}

/// A value clamped into an inclusive interval.
pub open spec fn clamp_i(v: int, lo: int, hi: int) -> int {
    if v < lo {
        lo
    } else if v > hi {
        hi
    } else {
        v
    }
}

/// Divides a fixed-point product back down by the unit scale, rounding
/// towards negative infinity.
pub fn div_unit(a: i64) -> (q: i64)
    requires
        -0x4000_0000_0000_0000 <= a <= 0x4000_0000_0000_0000,
    ensures
        q == (a as int) / (FX_UNIT as int),
{
    let u = FX_UNIT;
    if a >= 0 {
        a / u
    } else {
        let b = -a;
        let qc = (b + u - 1) / u;
        proof {
            let ui = u as int;
            let bi = b as int;
            lemma_fundamental_div_mod(bi + ui - 1, ui);
            let rem = (bi + ui - 1) % ui;
            lemma_mod_division_less_than_divisor(bi + ui - 1, ui);
            assert(a as int == (-(qc as int)) * ui + (ui - 1 - rem)) by (nonlinear_arith)
                requires
                    bi + ui - 1 == (qc as int) * ui + rem,
                    a as int == -bi,
            ;
            lemma_fundamental_div_mod_converse_div(a as int, ui, -(qc as int), ui - 1 - rem);
        }
        -qc
    }
}

fn sin_half_wave_exec(t: i64) -> (r: i64)
    requires
        0 <= t <= HALF_TURN_URAD,
    ensures
        r == sin_half_wave(t as int),
        0 <= r <= FX_UNIT,
{
    proof {
        lemma_sin_half_wave_bounds(t as int);
        let h = HALF_TURN_URAD as int;
        assert(0 <= (t as int) * (h - t) && (t as int) * (h - t) <= h * h) by (nonlinear_arith)
            requires
                0 <= t as int <= h,
        ;
    }
    let prod = t * (HALF_TURN_URAD - t);
    (4 * FX_UNIT) * prod / (HALF_TURN_URAD * HALF_TURN_URAD)
}

} // verus!
