//! The warped sampler: three cascaded evaluations of the noise field
//! (domain warping) turn one coherent field into a turbulent scalar per
//! pixel and frame.
//!
//! Both auxiliary warp fields are sampled with literally identical
//! inputs; this is a known limitation of the design that is preserved
//! faithfully here, since changing it would change the visual character
//! of the output. The warp multiplier and the decorrelating offsets are
//! structural constants of the visual style: they are fixed for a whole
//! run and never depend on the frame index, which the loop's seam
//! depends on.

use vstd::prelude::*;
use vstd::arithmetic::div_mod::{lemma_multiply_divide_le, lemma_div_pos_is_pos};
use crate::circle::abs_int;
use crate::noise::{NoiseField, spec_field, COORD_MAX};

verus! {

/// Fixed offset decorrelating the first warped evaluation, x part.
pub const WARP_OFF_1X: i64 = 1782579;

/// Fixed offset decorrelating the first warped evaluation, y part.
pub const WARP_OFF_1Y: i64 = 9646899;

/// Fixed offset decorrelating the second warped evaluation, x part.
pub const WARP_OFF_2X: i64 = 8703180;

/// Fixed offset decorrelating the second warped evaluation, y part.
pub const WARP_OFF_2Y: i64 = 2936012;

/// Largest magnitude the fixed-point spatial scale may have.
pub const SCALE_MAX: i64 = 0x4000_0000;

/// Largest magnitude the fixed-point circle radius may have.
pub const RADIUS_MAX: i64 = 0x100_0000_0000;

/// A pixel coordinate normalized into the sampled domain: the pixel's
/// fraction of the image extent, times the spatial scale.
pub open spec fn spec_normalize(x: int, extent: int, scale: int) -> int {
    if scale >= 0 {
        (x * scale) / extent
    } else {
        -((x * (-scale)) / extent)
    }
}

/// Normalizes a pixel coordinate; the result's magnitude never exceeds
/// the scale's.
pub fn normalize(x: u64, extent: u64, scale: i64) -> (r: i64)
    requires
        1 <= extent <= 65536,
        x <= extent,
        -SCALE_MAX <= scale <= SCALE_MAX,
    ensures
        r == spec_normalize(x as int, extent as int, scale as int),
        abs_int(r as int) <= abs_int(scale as int),
{
    let sm: u64 = if scale >= 0 {
        scale as u64
    } else {
        (-scale) as u64
    };
    proof {
        assert(x * sm <= extent * sm) by (nonlinear_arith)
            requires x <= extent, sm >= 0;
        assert(x * sm <= 65536 * 0x4000_0000) by (nonlinear_arith)
            requires x <= 65536, sm <= 0x4000_0000;
        lemma_multiply_divide_le((x * sm) as int, extent as int, sm as int);
        assert((extent as int) * (sm as int) == (sm as int) * (extent as int)) by (nonlinear_arith);
        assert(x * sm >= 0) by (nonlinear_arith)
            requires x >= 0, sm >= 0;
        lemma_div_pos_is_pos((x * sm) as int, extent as int);
    }
    let m: u64 = (x * sm) / extent;
    if scale >= 0 {
        m as i64
    } else {
        -(m as i64)
    }
}

/// The turbulent scalar for normalized spatial coordinates `(nx, ny)`
/// and auxiliary circle coordinates `(z, w)`: a cascade of three
/// dependent noise evaluations. The first pass feeds both warp offsets
/// (identically, by design); the second pass decorrelates two warped
/// fields with fixed offsets; the third samples the field at the warped
/// position. The result is a pure function of the seed and the four
/// coordinates, in `[-FP_ONE, FP_ONE]`.
pub open spec fn spec_warp(seed: u64, nx: int, ny: int, z: int, w: int) -> int {
    let q = spec_field(seed, nx, ny, z, w);
    let rx = spec_field(seed, nx + 4 * q + WARP_OFF_1X, ny + 4 * q + WARP_OFF_1Y, z, w);
    let ry = spec_field(seed, nx + 4 * q + WARP_OFF_2X, ny + 4 * q + WARP_OFF_2Y, z, w);
    spec_field(seed, nx + 4 * rx, ny + 4 * ry, z, w)
}

/// Cascades three noise evaluations into one turbulent scalar.
pub struct WarpedSampler {
    /// The noise field all three passes sample; seeded once per run.
    pub field: NoiseField,
}

impl WarpedSampler {
    /// Creates a sampler over a field with the given seed.
    pub fn new(seed: u64) -> (s: WarpedSampler)
        ensures
            s.field.seed == seed,
    {
        WarpedSampler { field: NoiseField::new(seed) }
    }

    /// Samples the warp cascade at normalized coordinates. Identical
    /// inputs always yield the identical scalar, and the scalar always
    /// lies in the canonical fixed-point range `[-1, 1]`.
    pub fn sample(&self, nx: i64, ny: i64, z: i64, w: i64) -> (r: i64)
        requires
            -0x8000_0000 <= nx <= 0x8000_0000,
            -0x8000_0000 <= ny <= 0x8000_0000,
            -RADIUS_MAX <= z <= RADIUS_MAX,
            -RADIUS_MAX <= w <= RADIUS_MAX,
        ensures
            r == spec_warp(self.field.seed, nx as int, ny as int, z as int, w as int),
            -1048576 <= r <= 1048576,
    {
        let q: i64 = self.field.sample(nx, ny, z, w);
        let rx: i64 = self.field.sample(nx + 4 * q + WARP_OFF_1X, ny + 4 * q + WARP_OFF_1Y, z, w);
        let ry: i64 = self.field.sample(nx + 4 * q + WARP_OFF_2X, ny + 4 * q + WARP_OFF_2Y, z, w);
        self.field.sample(nx + 4 * rx, ny + 4 * ry, z, w)
    }

    /// Samples the cascade for pixel `(x, y)` of a `width` by `height`
    /// image: normalizes both coordinates into the scaled domain, then
    /// warps. The result depends only on the seed, the pixel, the image
    /// extents, the scale and the circle point — never on anything
    /// mutable.
    pub fn sample_pixel(
        &self,
        x: u64,
        y: u64,
        width: u64,
        height: u64,
        scale: i64,
        z: i64,
        w: i64,
    ) -> (r: i64)
        requires
            1 <= width <= 65536,
            1 <= height <= 65536,
            x <= width,
            y <= height,
            -SCALE_MAX <= scale <= SCALE_MAX,
            -RADIUS_MAX <= z <= RADIUS_MAX,
            -RADIUS_MAX <= w <= RADIUS_MAX,
        ensures
            r == spec_warp(
                self.field.seed,
                spec_normalize(x as int, width as int, scale as int),
                spec_normalize(y as int, height as int, scale as int),
                z as int,
                w as int,
            ),
            -1048576 <= r <= 1048576,
    {
        let nx: i64 = normalize(x, width, scale);
        let ny: i64 = normalize(y, height, scale);
        self.sample(nx, ny, z, w)
    }
}

/// Determinism of the sampler: two evaluations of the warp cascade with
/// the same seed and the same coordinates yield the same scalar. This is
/// what makes the animation reproducible: same configuration, same
/// frames.
pub proof fn lemma_warp_deterministic(seed: u64, nx: int, ny: int, z: int, w: int, r1: int, r2: int)
    requires
        r1 == spec_warp(seed, nx, ny, z, w),
        r2 == spec_warp(seed, nx, ny, z, w),
    ensures
        r1 == r2,
{
}

} // verus!
