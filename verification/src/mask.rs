//! The shape masks: a pure decision, per pixel coordinate, whether the
//! computed color is kept or the pixel is blanked. A mask depends only
//! on the pixel position, the image extents and fixed shape constants —
//! never on the frame index — so masking cannot disturb the loop.
//!
//! Both variants are stated over integers by clearing denominators from
//! their real-valued definitions, so the decisions are exact:
//!
//! * Circle — keep iff `(x - W/2)^2 + (y - H/2)^2 < (min(W,H)/2)^2`,
//!   multiplied through by 4: `(2x - W)^2 + (2y - H)^2 < min(W,H)^2`.
//! * Piriform (teardrop) — with shape constants `A = 1`, `B = 5/2` and
//!   vertical stretch `k = 13/10`, normalized `px = 2x/W` and
//!   `py = (y/H - 1/2) * 2 * B * k = 13(2y - H)/(4H)`, keep iff
//!   `A^4 * py^2 < B^2 * px^3 * (2A - px)`; multiplying through by
//!   `16 * H^2 * W^4` gives
//!   `169 * (2y - H)^2 * W^4 < 1600 * x^3 * (W - x) * H^2`.

use vstd::prelude::*;
use vstd::arithmetic::div_mod::{
    lemma_fundamental_div_mod, lemma_mod_division_less_than_divisor,
};
use crate::circle::abs_int;

verus! {

/// Which silhouette clips the animation.
#[derive(Clone, Copy, PartialEq, Eq, Structural, Debug)]
pub enum ShapeKind {
    /// The inscribed circle of the frame.
    Circle,
    /// A piriform (teardrop) curve.
    Piriform,
}

/// The smaller of two integers.
pub open spec fn spec_min(a: int, b: int) -> int {
    if a <= b {
        a
    } else {
        b
    }
}

/// The circle mask's decision for pixel `(x, y)` of a `w` by `h` image.
pub open spec fn spec_circle_keep(x: int, y: int, w: int, h: int) -> bool {
    (2 * x - w) * (2 * x - w) + (2 * y - h) * (2 * y - h) < spec_min(w, h) * spec_min(w, h)
}

/// The piriform mask's decision for pixel `(x, y)` of a `w` by `h` image.
pub open spec fn spec_piriform_keep(x: int, y: int, w: int, h: int) -> bool {
    169 * ((2 * y - h) * (2 * y - h)) * (w * w * w * w) < 1600 * (x * x * x) * (w - x) * (h * h)
}

/// The active mask's decision.
pub open spec fn spec_keep(shape: ShapeKind, x: int, y: int, w: int, h: int) -> bool {
    match shape {
        ShapeKind::Circle => spec_circle_keep(x, y, w, h),
        ShapeKind::Piriform => spec_piriform_keep(x, y, w, h),
    }
}

/// Decides the circle mask for one pixel.
pub fn circle_keep(x: u64, y: u64, w: u64, h: u64) -> (r: bool)
    requires
        1 <= w <= 65535,
        1 <= h <= 65535,
        x <= 65535,
        y <= 65535,
    ensures
        r == spec_circle_keep(x as int, y as int, w as int, h as int),
{
    let dx: u64 = if 2 * x >= w {
        2 * x - w
    } else {
        w - 2 * x
    };
    let dy: u64 = if 2 * y >= h {
        2 * y - h
    } else {
        h - 2 * y
    };
    let m: u64 = if w <= h {
        w
    } else {
        h
    };
    proof {
        assert(dx * dx == (2 * x - w) * (2 * x - w)) by (nonlinear_arith)
            requires dx == abs_int(2 * x - w);
        assert(dy * dy == (2 * y - h) * (2 * y - h)) by (nonlinear_arith)
            requires dy == abs_int(2 * y - h);
        assert(dx * dx <= 131070 * 131070) by (nonlinear_arith)
            requires dx <= 131070;
        assert(dy * dy <= 131070 * 131070) by (nonlinear_arith)
            requires dy <= 131070;
        assert(m * m <= 65535 * 65535) by (nonlinear_arith)
            requires m <= 65535;
    }
    dx * dx + dy * dy < m * m
}

/// Decides the piriform mask for one pixel.
pub fn piriform_keep(x: u64, y: u64, w: u64, h: u64) -> (r: bool)
    requires
        1 <= w <= 65535,
        1 <= h <= 65535,
        x <= w,
        y <= 65535,
    ensures
        r == spec_piriform_keep(x as int, y as int, w as int, h as int),
{
    let dy: u64 = if 2 * y >= h {
        2 * y - h
    } else {
        h - 2 * y
    };
    proof {
        assert(dy * dy == (2 * y - h) * (2 * y - h)) by (nonlinear_arith)
            requires dy == abs_int(2 * y - h);
        assert(dy * dy <= 131070 * 131070) by (nonlinear_arith)
            requires dy <= 131070;
        assert(w * w <= 65535 * 65535) by (nonlinear_arith)
            requires w <= 65535;
        assert(h * h <= 65535 * 65535) by (nonlinear_arith)
            requires h <= 65535;
        assert(x * x <= 65535 * 65535) by (nonlinear_arith)
            requires x <= 65535;
    }
    let dy2: u64 = dy * dy;
    let w2: u64 = w * w;
    let h2: u64 = h * h;
    let x2: u64 = x * x;
    let l1: u128 = 169 * (dy2 as u128);
    proof {
        assert(l1 * w2 <= 169 * 131070 * 131070 * 65535 * 65535) by (nonlinear_arith)
            requires l1 <= 169 * 131070 * 131070, w2 <= 65535 * 65535;
    }
    let l2: u128 = l1 * (w2 as u128);
    proof {
        assert(l2 * w2 <= 169 * 131070 * 131070 * 65535 * 65535 * 65535 * 65535)
            by (nonlinear_arith)
            requires l2 <= 169 * 131070 * 131070 * 65535 * 65535, w2 <= 65535 * 65535;
    }
    let lhs: u128 = l2 * (w2 as u128);
    let r1: u128 = 1600 * (x2 as u128);
    proof {
        assert(r1 * x <= 1600 * 65535 * 65535 * 65535) by (nonlinear_arith)
            requires r1 <= 1600 * 65535 * 65535, x <= 65535;
    }
    let r2: u128 = r1 * (x as u128);
    proof {
        assert(r2 * (w - x) <= 1600 * 65535 * 65535 * 65535 * 65535) by (nonlinear_arith)
            requires r2 <= 1600 * 65535 * 65535 * 65535, w - x <= 65535;
    }
    let r3: u128 = r2 * ((w - x) as u128);
    proof {
        assert(r3 * h2 <= 1600 * 65535 * 65535 * 65535 * 65535 * 65535 * 65535)
            by (nonlinear_arith)
            requires r3 <= 1600 * 65535 * 65535 * 65535 * 65535, h2 <= 65535 * 65535;
    }
    let rhs: u128 = r3 * (h2 as u128);
    proof {
        let yi = y as int;
        let xi = x as int;
        let wi = w as int;
        let hi = h as int;
        assert(lhs == 169 * ((2 * yi - hi) * (2 * yi - hi)) * (wi * wi * wi * wi))
            by (nonlinear_arith)
            requires
                lhs == 169 * (dy2 as int) * (w2 as int) * (w2 as int),
                dy2 == (2 * yi - hi) * (2 * yi - hi),
                w2 == wi * wi;
        assert(rhs == 1600 * (xi * xi * xi) * (wi - xi) * (hi * hi)) by (nonlinear_arith)
            requires
                rhs == 1600 * (x2 as int) * xi * (wi - xi) * (h2 as int),
                x2 == xi * xi,
                h2 == hi * hi;
    }
    lhs < rhs
}

/// Decides the active mask for one pixel.
pub fn keep(shape: ShapeKind, x: u64, y: u64, w: u64, h: u64) -> (r: bool)
    requires
        1 <= w <= 65535,
        1 <= h <= 65535,
        x <= w,
        y <= 65535,
    ensures
        r == spec_keep(shape, x as int, y as int, w as int, h as int),
{
    match shape {
        ShapeKind::Circle => circle_keep(x, y, w, h),
        ShapeKind::Piriform => piriform_keep(x, y, w, h),
    }
}

/// The circle mask always keeps the exact center pixel, and always
/// excludes the three corner pixels that touch the first row or the
/// first column, for every image of extent at least two in both
/// directions. The far corner pixel `(W-1, H-1)` is likewise always
/// excluded once both extents are at least seven; in a smaller image
/// that pixel's center can lie strictly inside the inscribed circle
/// (in a 4 by 4 image, pixel `(3, 3)` is at distance `sqrt(2)` from the
/// center while the circle's radius is 2), so no stronger claim holds.
pub proof fn lemma_circle_mask_center_and_corners(w: int, h: int)
    requires
        2 <= w,
        2 <= h,
    ensures
        spec_circle_keep(w / 2, h / 2, w, h),
        !spec_circle_keep(0, 0, w, h),
        !spec_circle_keep(w - 1, 0, w, h),
        !spec_circle_keep(0, h - 1, w, h),
        7 <= w && 7 <= h ==> !spec_circle_keep(w - 1, h - 1, w, h),
{
    let m = spec_min(w, h);
    lemma_fundamental_div_mod(w, 2);
    lemma_fundamental_div_mod(h, 2);
    lemma_mod_division_less_than_divisor(w, 2);
    lemma_mod_division_less_than_divisor(h, 2);
    assert(2 * (w / 2) - w == -(w % 2));
    assert(2 * (h / 2) - h == -(h % 2));
    assert((2 * (w / 2) - w) * (2 * (w / 2) - w) <= 1) by (nonlinear_arith)
        requires -1 <= 2 * (w / 2) - w <= 0;
    assert((2 * (h / 2) - h) * (2 * (h / 2) - h) <= 1) by (nonlinear_arith)
        requires -1 <= 2 * (h / 2) - h <= 0;
    assert(m * m >= 4) by (nonlinear_arith)
        requires m >= 2;
    assert(m * m <= w * w) by (nonlinear_arith)
        requires 0 <= m <= w;
    assert(m * m <= h * h) by (nonlinear_arith)
        requires 0 <= m <= h;
    assert((w - 2) * (w - 2) >= 0) by (nonlinear_arith);
    assert((h - 2) * (h - 2) >= 0) by (nonlinear_arith);
    assert((2 * (w - 1) - w) * (2 * (w - 1) - w) == (w - 2) * (w - 2)) by (nonlinear_arith);
    assert((2 * (h - 1) - h) * (2 * (h - 1) - h) == (h - 2) * (h - 2)) by (nonlinear_arith);
    assert((2 * 0 - w) * (2 * 0 - w) == w * w) by (nonlinear_arith);
    assert((2 * 0 - h) * (2 * 0 - h) == h * h) by (nonlinear_arith);
    if 7 <= w && 7 <= h {
        assert((w - 2) * (w - 2) + (h - 2) * (h - 2) >= m * m) by (nonlinear_arith)
            requires 7 <= m, m <= w, m <= h;
    }
}

/// The piriform mask always excludes the pixels on the silhouette's two
/// horizontal extremes — normalized `px = 0` (the column `x = 0`) and
/// `px = 2A` (the column `x = W`) — whatever the vertical position.
pub proof fn lemma_piriform_mask_rim_excluded(y: int, w: int, h: int)
    requires
        1 <= w,
        1 <= h,
    ensures
        !spec_piriform_keep(0, y, w, h),
        !spec_piriform_keep(w, y, w, h),
{
    assert(169 * ((2 * y - h) * (2 * y - h)) * (w * w * w * w) >= 0) by (nonlinear_arith);
    assert(1600 * (0 * 0 * 0) * (w - 0) * (h * h) == 0) by (nonlinear_arith);
    assert(1600 * (w * w * w) * (w - w) * (h * h) == 0) by (nonlinear_arith);
}

} // verus!
