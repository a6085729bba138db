//! A deterministic, bounded, coherent 4-dimensional noise field.
//!
//! The field is a fractal value noise: pseudo-random values are fixed at
//! the corners of an integer lattice by a seeded hash, and every other
//! point is multilinearly interpolated from the sixteen surrounding
//! corners, so small input deltas produce small output deltas. Two
//! octaves at doubled frequency and halved amplitude are summed. The
//! value of the field is a pure function of the seed and the four
//! coordinates, which is the coherence the looping animation depends on:
//! nothing is ever reseeded between pixels or frames.
//!
//! Values are carried in a biased fixed-point form: a value `b` in
//! `[0, 2*FP_ONE]` stands for the real number `b/FP_ONE - 1` in `[-1, 1]`.

use vstd::prelude::*;
use vstd::arithmetic::div_mod::{
    lemma_mod_division_less_than_divisor, lemma_multiply_divide_le, lemma_div_pos_is_pos,
    lemma_div_is_ordered, lemma_div_multiples_vanish,
};

verus! {

/// Largest magnitude a fixed-point input coordinate of the field may have.
pub const COORD_MAX: i64 = 0x2000_0000_0000;

/// Finalizing mixer of the corner hash: two xor-shift-multiply rounds.
pub open spec fn spec_mix(h: u64) -> u64 {
    let a = vstd::wrapping::u64_specs::wrapping_mul(h ^ (h >> 31), 0x9e3779b97f4a7c15);
    let b = vstd::wrapping::u64_specs::wrapping_mul(a ^ (a >> 29), 0xbf58476d1ce4e5b9);
    b ^ (b >> 32)
}

/// Exec counterpart of [`spec_mix`].
fn mix(h: u64) -> (r: u64)
    ensures
        r == spec_mix(h),
{
    let a: u64 = (h ^ (h >> 31)).wrapping_mul(0x9e3779b97f4a7c15);
    let b: u64 = (a ^ (a >> 29)).wrapping_mul(0xbf58476d1ce4e5b9);
    b ^ (b >> 32)
}

/// The pseudo-random value fixed at one lattice corner, in the biased
/// range `[0, 2*FP_ONE]`; a pure function of the seed and the corner.
pub open spec fn spec_corner(seed: u64, cx: u64, cy: u64, cz: u64, cw: u64) -> int {
    let h = spec_mix(
        seed ^ vstd::wrapping::u64_specs::wrapping_mul(cx, 0x8da6b343)
            ^ vstd::wrapping::u64_specs::wrapping_mul(cy, 0xd8163841)
            ^ vstd::wrapping::u64_specs::wrapping_mul(cz, 0xcb1ab31f)
            ^ vstd::wrapping::u64_specs::wrapping_mul(cw, 0x165667b1),
    );
    (h % 2097153) as int
}

/// Exec counterpart of [`spec_corner`].
fn corner(seed: u64, cx: u64, cy: u64, cz: u64, cw: u64) -> (r: u64)
    ensures
        r == spec_corner(seed, cx, cy, cz, cw),
        r <= 2097152,
{
    let h: u64 = mix(
        seed ^ cx.wrapping_mul(0x8da6b343) ^ cy.wrapping_mul(0xd8163841) ^ cz.wrapping_mul(
            0xcb1ab31f,
        ) ^ cw.wrapping_mul(0x165667b1),
    );
    proof {
        lemma_mod_division_less_than_divisor(h as int, 2097153);
    }
    h % 2097153
}

/// Linear interpolation between two biased values at fixed-point
/// parameter `t`; the result never leaves the interval spanned by the
/// two endpoints.
pub open spec fn spec_lerp(a: int, b: int, t: int) -> int {
    if b >= a {
        a + ((b - a) * t) / 1048576
    } else {
        a - ((a - b) * t) / 1048576
    }
}

/// The interpolation result stays between its endpoints whenever the
/// parameter lies inside one fixed-point unit.
pub proof fn lemma_lerp_bounds(a: int, b: int, t: int)
    requires
        0 <= t < 1048576,
        0 <= a,
        0 <= b,
    ensures
        spec_lerp(a, b, t) >= if a <= b { a } else { b },
        spec_lerp(a, b, t) <= if a >= b { a } else { b },
{
    if b >= a {
        let d = b - a;
        assert(d * t >= 0) by (nonlinear_arith)
            requires d >= 0, t >= 0;
        lemma_div_pos_is_pos(d * t, 1048576);
        assert(d * t <= d * 1048576) by (nonlinear_arith)
            requires d >= 0, t <= 1048576;
        lemma_div_is_ordered(d * t, d * 1048576, 1048576);
        lemma_div_multiples_vanish(d, 1048576);
    } else {
        let d = a - b;
        assert(d * t >= 0) by (nonlinear_arith)
            requires d >= 0, t >= 0;
        lemma_div_pos_is_pos(d * t, 1048576);
        assert(d * t <= d * 1048576) by (nonlinear_arith)
            requires d >= 0, t <= 1048576;
        lemma_div_is_ordered(d * t, d * 1048576, 1048576);
        lemma_div_multiples_vanish(d, 1048576);
    }
}

/// Exec counterpart of [`spec_lerp`] on biased values.
fn lerp(a: u64, b: u64, t: u64) -> (r: u64)
    requires
        a <= 2097152,
        b <= 2097152,
        t < 1048576,
    ensures
        r == spec_lerp(a as int, b as int, t as int),
        r <= 2097152,
{
    proof {
        lemma_lerp_bounds(a as int, b as int, t as int);
    }
    if b >= a {
        proof {
            assert((b - a) * t <= 2097152 * 1048576) by (nonlinear_arith)
                requires 0 <= b - a <= 2097152, 0 <= t <= 1048576;
        }
        a + ((b - a) * t) / 1048576
    } else {
        proof {
            assert((a - b) * t <= 2097152 * 1048576) by (nonlinear_arith)
                requires 0 <= a - b <= 2097152, 0 <= t <= 1048576;
        }
        a - ((a - b) * t) / 1048576
    }
}

/// One octave of value noise at a lattice point given by scaled
/// fixed-point coordinates (coordinate times frequency, already offset
/// into the nonnegative range). The cell indices are the coordinates'
/// integer parts; the sixteen corner values of the surrounding 4-cube
/// are interpolated with the fractional parts. Kept opaque: callers
/// reason about the field through the exec mirror's contract, not by
/// unfolding the sixteen-corner interpolation.
#[verifier::opaque]
pub open spec fn spec_lattice(seed: u64, sx: int, sy: int, sz: int, sw: int) -> int {
    let cx = (sx / 1048576) as u64;
    let cy = (sy / 1048576) as u64;
    let cz = (sz / 1048576) as u64;
    let cw = (sw / 1048576) as u64;
    let fx = sx % 1048576;
    let fy = sy % 1048576;
    let fz = sz % 1048576;
    let fw = sw % 1048576;
    let x1 = vstd::wrapping::u64_specs::wrapping_add(cx, 1);
    let y1 = vstd::wrapping::u64_specs::wrapping_add(cy, 1);
    let z1 = vstd::wrapping::u64_specs::wrapping_add(cz, 1);
    let w1 = vstd::wrapping::u64_specs::wrapping_add(cw, 1);
    let a0000 = spec_corner(seed, cx, cy, cz, cw);
    let a1000 = spec_corner(seed, x1, cy, cz, cw);
    let a0100 = spec_corner(seed, cx, y1, cz, cw);
    let a1100 = spec_corner(seed, x1, y1, cz, cw);
    let a0010 = spec_corner(seed, cx, cy, z1, cw);
    let a1010 = spec_corner(seed, x1, cy, z1, cw);
    let a0110 = spec_corner(seed, cx, y1, z1, cw);
    let a1110 = spec_corner(seed, x1, y1, z1, cw);
    let a0001 = spec_corner(seed, cx, cy, cz, w1);
    let a1001 = spec_corner(seed, x1, cy, cz, w1);
    let a0101 = spec_corner(seed, cx, y1, cz, w1);
    let a1101 = spec_corner(seed, x1, y1, cz, w1);
    let a0011 = spec_corner(seed, cx, cy, z1, w1);
    let a1011 = spec_corner(seed, x1, cy, z1, w1);
    let a0111 = spec_corner(seed, cx, y1, z1, w1);
    let a1111 = spec_corner(seed, x1, y1, z1, w1);
    let bx000 = spec_lerp(a0000, a1000, fx);
    let bx100 = spec_lerp(a0100, a1100, fx);
    let bx010 = spec_lerp(a0010, a1010, fx);
    let bx110 = spec_lerp(a0110, a1110, fx);
    let bx001 = spec_lerp(a0001, a1001, fx);
    let bx101 = spec_lerp(a0101, a1101, fx);
    let bx011 = spec_lerp(a0011, a1011, fx);
    let bx111 = spec_lerp(a0111, a1111, fx);
    let cy00 = spec_lerp(bx000, bx100, fy);
    let cy10 = spec_lerp(bx010, bx110, fy);
    let cy01 = spec_lerp(bx001, bx101, fy);
    let cy11 = spec_lerp(bx011, bx111, fy);
    let dz0 = spec_lerp(cy00, cy10, fz);
    let dz1 = spec_lerp(cy01, cy11, fz);
    spec_lerp(dz0, dz1, fw)
}

/// Exec counterpart of [`spec_lattice`], on already-offset, already-scaled
/// nonnegative coordinates.
fn lattice(seed: u64, sx: u64, sy: u64, sz: u64, sw: u64) -> (r: u64)
    requires
        sx < 0x100_0000_0000_0000,
        sy < 0x100_0000_0000_0000,
        sz < 0x100_0000_0000_0000,
        sw < 0x100_0000_0000_0000,
    ensures
        r == spec_lattice(seed, sx as int, sy as int, sz as int, sw as int),
        r <= 2097152,
{
    proof {
        reveal(spec_lattice);
    }
    let cx: u64 = sx / 1048576;
    let cy: u64 = sy / 1048576;
    let cz: u64 = sz / 1048576;
    let cw: u64 = sw / 1048576;
    proof {
        lemma_mod_division_less_than_divisor(sx as int, 1048576);
        lemma_mod_division_less_than_divisor(sy as int, 1048576);
        lemma_mod_division_less_than_divisor(sz as int, 1048576);
        lemma_mod_division_less_than_divisor(sw as int, 1048576);
    }
    let fx: u64 = sx % 1048576;
    let fy: u64 = sy % 1048576;
    let fz: u64 = sz % 1048576;
    let fw: u64 = sw % 1048576;
    let x1: u64 = cx.wrapping_add(1);
    let y1: u64 = cy.wrapping_add(1);
    let z1: u64 = cz.wrapping_add(1);
    let w1: u64 = cw.wrapping_add(1);
    let a0000: u64 = corner(seed, cx, cy, cz, cw);
    let a1000: u64 = corner(seed, x1, cy, cz, cw);
    let a0100: u64 = corner(seed, cx, y1, cz, cw);
    let a1100: u64 = corner(seed, x1, y1, cz, cw);
    let a0010: u64 = corner(seed, cx, cy, z1, cw);
    let a1010: u64 = corner(seed, x1, cy, z1, cw);
    let a0110: u64 = corner(seed, cx, y1, z1, cw);
    let a1110: u64 = corner(seed, x1, y1, z1, cw);
    let a0001: u64 = corner(seed, cx, cy, cz, w1);
    let a1001: u64 = corner(seed, x1, cy, cz, w1);
    let a0101: u64 = corner(seed, cx, y1, cz, w1);
    let a1101: u64 = corner(seed, x1, y1, cz, w1);
    let a0011: u64 = corner(seed, cx, cy, z1, w1);
    let a1011: u64 = corner(seed, x1, cy, z1, w1);
    let a0111: u64 = corner(seed, cx, y1, z1, w1);
    let a1111: u64 = corner(seed, x1, y1, z1, w1);
    let bx000: u64 = lerp(a0000, a1000, fx);
    let bx100: u64 = lerp(a0100, a1100, fx);
    let bx010: u64 = lerp(a0010, a1010, fx);
    let bx110: u64 = lerp(a0110, a1110, fx);
    let bx001: u64 = lerp(a0001, a1001, fx);
    let bx101: u64 = lerp(a0101, a1101, fx);
    let bx011: u64 = lerp(a0011, a1011, fx);
    let bx111: u64 = lerp(a0111, a1111, fx);
    let cy00: u64 = lerp(bx000, bx100, fy);
    let cy10: u64 = lerp(bx010, bx110, fy);
    let cy01: u64 = lerp(bx001, bx101, fy);
    let cy11: u64 = lerp(bx011, bx111, fy);
    let dz0: u64 = lerp(cy00, cy10, fz);
    let dz1: u64 = lerp(cy01, cy11, fz);
    lerp(dz0, dz1, fw)
}

/// The full field in biased form: two octaves of lattice noise, the
/// second at doubled frequency and halved weight, renormalized into
/// `[0, 2*FP_ONE]`. Coordinates are translated by a fixed offset so the
/// lattice arithmetic stays in the nonnegative range; the translation is
/// the same for every sample and so changes nothing about coherence.
pub open spec fn spec_field_biased(seed: u64, x: int, y: int, z: int, w: int) -> int {
    let o1 = spec_lattice(
        seed,
        (x + 0x4000_0000_0000) * 8,
        (y + 0x4000_0000_0000) * 8,
        (z + 0x4000_0000_0000) * 8,
        (w + 0x4000_0000_0000) * 8,
    );
    let o2 = spec_lattice(
        seed,
        (x + 0x4000_0000_0000) * 16,
        (y + 0x4000_0000_0000) * 16,
        (z + 0x4000_0000_0000) * 16,
        (w + 0x4000_0000_0000) * 16,
    );
    (2 * o1 + o2) / 3
}

/// The field value as a signed fixed-point scalar in `[-FP_ONE, FP_ONE]`.
pub open spec fn spec_field(seed: u64, x: int, y: int, z: int, w: int) -> int {
    spec_field_biased(seed, x, y, z, w) - 1048576
}

/// A deterministic 4D coherent noise field, seeded once per run.
pub struct NoiseField {
    /// The fixed permutation seed of the field; never reseeded.
    pub seed: u64,
}

impl NoiseField {
    /// Creates the field with the given seed.
    pub fn new(seed: u64) -> (f: NoiseField)
        ensures
            f.seed == seed,
    {
        NoiseField { seed }
    }

    /// Samples the field. The result is a pure function of the seed and
    /// the four coordinates — the same inputs always yield the same
    /// scalar — and always lies in the canonical range `[-1, 1]` in
    /// fixed-point form.
    pub fn sample(&self, x: i64, y: i64, z: i64, w: i64) -> (r: i64)
        requires
            -COORD_MAX <= x <= COORD_MAX,
            -COORD_MAX <= y <= COORD_MAX,
            -COORD_MAX <= z <= COORD_MAX,
            -COORD_MAX <= w <= COORD_MAX,
        ensures
            r == spec_field(self.seed, x as int, y as int, z as int, w as int),
            -1048576 <= r <= 1048576,
    {
        let sx1: u64 = ((x + 0x4000_0000_0000) as u64) * 8;
        let sy1: u64 = ((y + 0x4000_0000_0000) as u64) * 8;
        let sz1: u64 = ((z + 0x4000_0000_0000) as u64) * 8;
        let sw1: u64 = ((w + 0x4000_0000_0000) as u64) * 8;
        let o1: u64 = lattice(self.seed, sx1, sy1, sz1, sw1);
        let sx2: u64 = ((x + 0x4000_0000_0000) as u64) * 16;
        let sy2: u64 = ((y + 0x4000_0000_0000) as u64) * 16;
        let sz2: u64 = ((z + 0x4000_0000_0000) as u64) * 16;
        let sw2: u64 = ((w + 0x4000_0000_0000) as u64) * 16;
        let o2: u64 = lattice(self.seed, sx2, sy2, sz2, sw2);
        let b: u64 = (2 * o1 + o2) / 3;
        proof {
            lemma_multiply_divide_le((2 * o1 + o2) as int, 3, 2097152);
        }
        (b as i64) - 1048576
    }
}

} // verus!
