//! The 4D-circle loop trick: the animation's time axis is mapped to a
//! point travelling around a circle of a fixed radius in an auxiliary
//! plane. Frame index `t` of an `n`-frame animation corresponds to the
//! angle `(t % n) / n` of a full turn; because the phase is reduced
//! modulo `n` before the angle is formed, the point for frame `t + n`
//! coincides exactly with the point for frame `t`, which is what makes
//! the loop seamless.
//!
//! Angles are measured in fixed-point fractions of a full turn
//! (`FP_ONE` units per revolution), and the sine is evaluated with
//! Bhaskara's rational approximation, which is exact at 0, a quarter
//! turn and a half turn and stays within `[-1, 1]` everywhere.

use vstd::prelude::*;
use vstd::arithmetic::div_mod::{
    lemma_mod_add_multiples_vanish, lemma_mod_division_less_than_divisor, lemma_multiply_divide_lt,
    lemma_multiply_divide_le,
};

verus! {

/// Half of a full turn, in fixed-point turn units.
pub const HALF_TURN: u64 = 524288;

/// A quarter of a full turn, in fixed-point turn units.
pub const QUARTER_TURN: u64 = 262144;

/// Absolute value of a mathematical integer.
pub open spec fn abs_int(a: int) -> int {
    if a >= 0 {
        a
    } else {
        -a
    }
}

/// The phase of frame `t` in an `n`-frame loop: the frame index reduced
/// modulo the frame count, so that one revolution spans exactly `n` frames.
pub open spec fn spec_frame_phase(t: int, n: int) -> int {
    t % n
}

/// Reduces a frame index to its phase within the loop.
pub fn frame_phase(t: u64, n: u64) -> (r: u64)
    requires
        1 <= n,
    ensures
        r == spec_frame_phase(t as int, n as int),
        r < n,
{
    t % n
}

/// The angle of phase `p` of `n`, as a fixed-point fraction of a turn.
pub open spec fn spec_turn_of_phase(p: int, n: int) -> int {
    (p * 1048576) / n
}

/// Converts a phase into its angle in fixed-point turn units.
pub fn turn_of_phase(p: u64, n: u64) -> (r: u64)
    requires
        1 <= n <= 0x1_0000_0000,
        p < n,
    ensures
        r == spec_turn_of_phase(p as int, n as int),
        r < 1048576,
{
    proof {
        assert(p * 1048576 <= 0x1_0000_0000 * 1048576) by (nonlinear_arith)
            requires p <= 0x1_0000_0000;
        assert((p * 1048576) < (n as int) * 1048576) by (nonlinear_arith)
            requires p < n;
        lemma_multiply_divide_lt(p * 1048576, n as int, 1048576);
    }
    (p * 1048576) / n
}

/// Bhaskara's rational approximation of `sin` on the first half turn,
/// written over turn units: for `u` in `[0, HALF_TURN]` the real value
/// `sin(2*pi*u/FP_ONE)` is approximated by `32*g / (5*FP_ONE^2 - 8*g)`
/// with `g = u*(FP_ONE - 2*u)`, scaled by `FP_ONE`.
pub open spec fn spec_half_sine(u: int) -> int {
    let g = u * (1048576 - 2 * u);
    (32 * g * 1048576) / (5 * 1048576 * 1048576 - 8 * g)
}

/// Sine magnitude on the first half turn, in fixed-point units.
pub fn half_sine(u: u64) -> (r: u64)
    requires
        u <= HALF_TURN,
    ensures
        r == spec_half_sine(u as int),
        r <= 1048576,
{
    proof {
        assert(u * (1048576 - 2 * u) * 8 <= 1048576 * 1048576) by (nonlinear_arith)
            requires u <= 524288;
        assert(u * (1048576 - 2 * u) >= 0) by (nonlinear_arith)
            requires u <= 524288;
    }
    let g: u64 = u * (1048576 - 2 * u);
    let num: u64 = 32 * g * 1048576;
    let den: u64 = 5 * 1048576 * 1048576 - 8 * g;
    proof {
        assert(num <= 1048576 * (den as int)) by (nonlinear_arith)
            requires
                num == 32 * g * 1048576,
                den == 5 * 1048576 * 1048576 - 8 * g,
                8 * g <= 1048576 * 1048576,
                g >= 0;
        lemma_multiply_divide_le(num as int, den as int, 1048576);
        assert((den as int) * 1048576 == 1048576 * (den as int)) by (nonlinear_arith);
    }
    num / den
}

/// Sine of an angle given in fixed-point turn units, in `[-FP_ONE, FP_ONE]`.
pub open spec fn spec_sine(u: int) -> int {
    if u <= 524288 {
        spec_half_sine(u)
    } else {
        -spec_half_sine(u - 524288)
    }
}

/// Fixed-point sine over one full turn.
pub fn sine_turns(u: u64) -> (r: i64)
    requires
        u < 1048576,
    ensures
        r == spec_sine(u as int),
        -1048576 <= r <= 1048576,
{
    if u <= HALF_TURN {
        half_sine(u) as i64
    } else {
        let m: u64 = half_sine(u - HALF_TURN);
        -(m as i64)
    }
}

/// Cosine of an angle in turn units: the sine a quarter turn ahead.
pub open spec fn spec_cosine(u: int) -> int {
    spec_sine((u + 262144) % 1048576)
}

/// Fixed-point cosine over one full turn.
pub fn cosine_turns(u: u64) -> (r: i64)
    requires
        u < 1048576,
    ensures
        r == spec_cosine(u as int),
        -1048576 <= r <= 1048576,
{
    proof {
        lemma_mod_division_less_than_divisor((u + 262144) as int, 1048576);
    }
    let v: u64 = (u + 262144) % 1048576;
    sine_turns(v)
}

/// Product of two fixed-point values, rescaled by one unit; truncates
/// toward zero, as the corresponding machine arithmetic does.
pub open spec fn spec_mul_unit(a: int, b: int) -> int {
    if a * b >= 0 {
        (a * b) / 1048576
    } else {
        -((-(a * b)) / 1048576)
    }
}

/// Fixed-point multiplication, computed over magnitudes so that only
/// unsigned machine division is needed.
pub fn mul_unit(a: i64, b: i64) -> (r: i64)
    requires
        -0x100_0000_0000 <= a <= 0x100_0000_0000,
        -2097152 <= b <= 2097152,
    ensures
        r == spec_mul_unit(a as int, b as int),
        abs_int(r as int) * 1048576 <= abs_int(a as int) * abs_int(b as int),
{
    let am: u64 = if a >= 0 {
        a as u64
    } else {
        (-a) as u64
    };
    let bm: u64 = if b >= 0 {
        b as u64
    } else {
        (-b) as u64
    };
    proof {
        assert(am * bm <= 0x100_0000_0000 * 2097152) by (nonlinear_arith)
            requires am <= 0x100_0000_0000, bm <= 2097152;
    }
    let p: u64 = am * bm;
    let m: u64 = p / 1048576;
    let neg: bool = (a < 0) != (b < 0);
    let r: i64 = if neg {
        -(m as i64)
    } else {
        m as i64
    };
    proof {
        let ai = a as int;
        let bi = b as int;
        assert(p == abs_int(ai * bi) && (neg ==> ai * bi <= 0) && (!neg ==> ai * bi >= 0))
            by (nonlinear_arith)
            requires
                am == abs_int(ai),
                bm == abs_int(bi),
                p == am * bm,
                neg == ((ai < 0) != (bi < 0));
        assert(m * 1048576 <= p && m == p as int / 1048576) by (nonlinear_arith)
            requires m == p as int / 1048576, p >= 0;
        if ai * bi >= 0 {
            assert(p == ai * bi);
            if neg {
                assert(ai * bi == 0);
                vstd::arithmetic::div_mod::lemma_div_of0(1048576);
                assert(m == 0);
            }
            assert(r == (ai * bi) / 1048576);
        } else {
            assert(p == -(ai * bi));
            assert(neg);
            assert(r == -((-(ai * bi)) / 1048576));
        }
        assert(abs_int(r as int) == m);
        assert(m * 1048576 <= abs_int(ai) * abs_int(bi));
    }
    r
}

/// The point on the auxiliary circle for frame `t` of an `n`-frame loop
/// with the given fixed-point radius: `(radius*cos(angle), radius*sin(angle))`
/// where `angle` is the phase's fraction of a full turn.
pub open spec fn spec_circle_point(t: int, n: int, radius: int) -> (int, int) {
    let u = spec_turn_of_phase(spec_frame_phase(t, n), n);
    (spec_mul_unit(radius, spec_cosine(u)), spec_mul_unit(radius, spec_sine(u)))
}

/// Computes the auxiliary-plane coordinates `(z, w)` for frame `t`.
/// The magnitude of each coordinate never exceeds the radius.
pub fn circle_point(t: u64, n: u64, radius: i64) -> (zw: (i64, i64))
    requires
        1 <= n <= 0x1_0000_0000,
        -0x100_0000_0000 <= radius <= 0x100_0000_0000,
    ensures
        (zw.0 as int, zw.1 as int) == spec_circle_point(t as int, n as int, radius as int),
        abs_int(zw.0 as int) <= abs_int(radius as int),
        abs_int(zw.1 as int) <= abs_int(radius as int),
{
    let p: u64 = frame_phase(t, n);
    let u: u64 = turn_of_phase(p, n);
    let c: i64 = cosine_turns(u);
    let s: i64 = sine_turns(u);
    let z: i64 = mul_unit(radius, c);
    let w: i64 = mul_unit(radius, s);
    proof {
        assert(abs_int(z as int) <= abs_int(radius as int)) by (nonlinear_arith)
            requires
                abs_int(z as int) * 1048576 <= abs_int(radius as int) * abs_int(c as int),
                abs_int(c as int) <= 1048576,
                abs_int(radius as int) >= 0,
                abs_int(z as int) >= 0;
        assert(abs_int(w as int) <= abs_int(radius as int)) by (nonlinear_arith)
            requires
                abs_int(w as int) * 1048576 <= abs_int(radius as int) * abs_int(s as int),
                abs_int(s as int) <= 1048576,
                abs_int(radius as int) >= 0,
                abs_int(w as int) >= 0;
    }
    (z, w)
}

/// Periodicity of the loop: the circle point of frame `t + n` equals the
/// circle point of frame `t`, for every frame index and configuration.
/// This is the property the whole design exists to deliver: the frame one
/// past the end of the loop is computed from exactly the same auxiliary
/// coordinates as the first frame.
pub proof fn lemma_circle_point_periodic(t: int, n: int, radius: int)
    requires
        1 <= n,
        0 <= t,
    ensures
        spec_circle_point(t + n, n, radius) == spec_circle_point(t, n, radius),
{
    lemma_mod_add_multiples_vanish(t, n);
    assert(spec_frame_phase(t + n, n) == spec_frame_phase(t, n));
}

} // verus!
