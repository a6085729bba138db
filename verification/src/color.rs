//! The color mapper: a warp scalar becomes a hue, and the hue becomes
//! an RGB triple with saturation and brightness pinned to their maxima,
//! so the output is always a fully saturated, maximally bright hue ramp.
//!
//! The scalar's canonical range `[-1, 1]` is normalized onto the hue
//! circle in degrees and wrapped explicitly into `[0, 360)` before the
//! conversion; no unwrapped value ever reaches the sector arithmetic.
//! Alpha is not produced here: it is the masking stage's decision.

use vstd::prelude::*;
use vstd::arithmetic::div_mod::{
    lemma_multiply_divide_le, lemma_multiply_divide_lt, lemma_div_pos_is_pos,
    lemma_mod_division_less_than_divisor,
};

verus! {

/// The hue, in degrees `[0, 360)`, of a scalar in fixed-point `[-1, 1]`:
/// the scalar's position in its range scaled onto the hue circle, with
/// the top endpoint wrapped back onto zero.
pub open spec fn spec_hue_of(v: int) -> int {
    let h = ((v + 1048576) * 360) / 2097152;
    if h >= 360 {
        h - 360
    } else {
        h
    }
}

/// The RGB triple of a hue: six 60-degree sectors, one channel ramping
/// linearly inside each sector while the neighbours are pinned at the
/// extremes.
pub open spec fn spec_color_of_hue(h: int) -> (int, int, int) {
    let sec = h / 60;
    let f = h % 60;
    let up = (f * 255) / 60;
    let down = ((60 - f) * 255) / 60;
    if sec == 0 {
        (255, up, 0)
    } else if sec == 1 {
        (down, 255, 0)
    } else if sec == 2 {
        (0, 255, up)
    } else if sec == 3 {
        (0, down, 255)
    } else if sec == 4 {
        (up, 0, 255)
    } else {
        (255, 0, down)
    }
}

/// The full scalar-to-color mapping.
pub open spec fn spec_map_color(v: int) -> (int, int, int) {
    spec_color_of_hue(spec_hue_of(v))
}

/// Color domain safety: for every scalar in the canonical range —
/// its extremes included — all three channels of the mapped color lie
/// in `[0, 255]`.
pub proof fn lemma_color_in_range(v: int)
    requires
        -1048576 <= v <= 1048576,
    ensures
        0 <= spec_map_color(v).0 <= 255,
        0 <= spec_map_color(v).1 <= 255,
        0 <= spec_map_color(v).2 <= 255,
{
    let u = v + 1048576;
    let h0 = (u * 360) / 2097152;
    assert(u * 360 <= 2097152 * 360) by (nonlinear_arith)
        requires u <= 2097152;
    assert(u * 360 >= 0) by (nonlinear_arith)
        requires u >= 0;
    lemma_multiply_divide_le(u * 360, 2097152, 360);
    lemma_div_pos_is_pos(u * 360, 2097152);
    let h = spec_hue_of(v);
    assert(0 <= h < 360);
    lemma_multiply_divide_lt(h, 60, 6);
    lemma_div_pos_is_pos(h, 60);
    lemma_mod_division_less_than_divisor(h, 60);
    let f = h % 60;
    assert(f * 255 <= 60 * 255) by (nonlinear_arith)
        requires f <= 60;
    assert(f * 255 >= 0) by (nonlinear_arith)
        requires f >= 0;
    assert((60 - f) * 255 <= 60 * 255) by (nonlinear_arith)
        requires f >= 0;
    assert((60 - f) * 255 >= 0) by (nonlinear_arith)
        requires f <= 60;
    lemma_multiply_divide_le(f * 255, 60, 255);
    lemma_div_pos_is_pos(f * 255, 60);
    lemma_multiply_divide_le((60 - f) * 255, 60, 255);
    lemma_div_pos_is_pos((60 - f) * 255, 60);
}

/// Maps a warp scalar to its color. The channels are always integers in
/// `[0, 255]`, whatever scalar in the canonical range comes in.
pub fn map_color(v: i64) -> (c: (u8, u8, u8))
    requires
        -1048576 <= v <= 1048576,
    ensures
        (c.0 as int, c.1 as int, c.2 as int) == spec_map_color(v as int),
{
    proof {
        lemma_color_in_range(v as int);
        let ui = v as int + 1048576;
        assert(ui * 360 <= 2097152 * 360) by (nonlinear_arith)
            requires ui <= 2097152;
        assert(ui * 360 >= 0) by (nonlinear_arith)
            requires ui >= 0;
        lemma_multiply_divide_le(ui * 360, 2097152, 360);
        lemma_div_pos_is_pos(ui * 360, 2097152);
    }
    let u: u64 = (v + 1048576) as u64;
    let h0: u64 = (u * 360) / 2097152;
    let h: u64 = if h0 >= 360 {
        h0 - 360
    } else {
        h0
    };
    proof {
        lemma_mod_division_less_than_divisor(h as int, 60);
        lemma_div_pos_is_pos(h as int, 60);
        lemma_multiply_divide_lt(h as int, 60, 6);
    }
    let sec: u64 = h / 60;
    let f: u64 = h % 60;
    proof {
        assert(f * 255 <= 60 * 255) by (nonlinear_arith)
            requires f <= 60;
        assert((60 - f) * 255 <= 60 * 255) by (nonlinear_arith)
            requires 0 <= f <= 60;
        lemma_multiply_divide_le((f * 255) as int, 60, 255);
        lemma_multiply_divide_le(((60 - f) * 255) as int, 60, 255);
    }
    let up: u64 = (f * 255) / 60;
    let down: u64 = ((60 - f) * 255) / 60;
    if sec == 0 {
        (255, up as u8, 0)
    } else if sec == 1 {
        (down as u8, 255, 0)
    } else if sec == 2 {
        (0, 255, up as u8)
    } else if sec == 3 {
        (0, down as u8, 255)
    } else if sec == 4 {
        (up as u8, 0, 255)
    } else {
        (255, 0, down as u8)
    }
}

} // verus!
