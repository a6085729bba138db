//! The driver: materializes frame buffers by composing the circle
//! point, the warped sampler, the color mapper and the mask for every
//! pixel of every frame.
//!
//! A frame is a `width * height * 4` RGBA byte buffer; the four channels
//! of pixel `(x, y)` sit at byte offset `4*x + 4*width*y`. A pixel the
//! active mask keeps receives its mapped color with opaque alpha; a
//! pixel the mask excludes has all four channels zero — atomically,
//! never a mix. No pixel's bytes depend on any other pixel, only on the
//! immutable configuration, the seed, and the pixel's own coordinates.

use vstd::prelude::*;
use vstd::arithmetic::div_mod::{
    lemma_fundamental_div_mod_converse_div, lemma_fundamental_div_mod_converse_mod,
};
use crate::circle::{spec_circle_point, circle_point, lemma_circle_point_periodic};
use crate::color::{spec_map_color, map_color, lemma_color_in_range};
use crate::mask::{spec_keep, keep};
use crate::params::AnimationParams;
use crate::warp::{WarpedSampler, spec_warp, spec_normalize};

verus! {

/// The RGBA quadruple of pixel `(x, y)` in frame `t`: the warp scalar's
/// color with opaque alpha where the mask keeps the pixel, and four zero
/// channels where it does not.
pub open spec fn spec_pixel_rgba(seed: u64, p: AnimationParams, t: int, x: int, y: int) -> (
    int,
    int,
    int,
    int,
) {
    let zw = spec_circle_point(t, p.frame_count as int, p.radius as int);
    if spec_keep(p.shape, x, y, p.width as int, p.height as int) {
        let v = spec_warp(
            seed,
            spec_normalize(x, p.width as int, p.scale as int),
            spec_normalize(y, p.height as int, p.scale as int),
            zw.0,
            zw.1,
        );
        let c = spec_map_color(v);
        (c.0, c.1, c.2, 255)
    } else {
        (0, 0, 0, 0)
    }
}

/// One channel of an RGBA quadruple.
pub open spec fn spec_channel(q: (int, int, int, int), ch: int) -> int {
    if ch == 0 {
        q.0
    } else if ch == 1 {
        q.1
    } else if ch == 2 {
        q.2
    } else {
        q.3
    }
}

/// The full byte buffer of frame `t`.
pub open spec fn spec_frame(seed: u64, p: AnimationParams, t: int) -> Seq<u8> {
    Seq::new(
        (4 * p.width * p.height) as nat,
        |i: int|
            {
                let pix = i / 4;
                let x = pix % (p.width as int);
                let y = pix / (p.width as int);
                spec_channel(spec_pixel_rgba(seed, p, t, x, y), i % 4) as u8
            },
    )
}

/// Masking is atomic: a pixel the mask excludes has all four channels
/// equal to zero — never three colored channels with a cleared alpha,
/// nor any other partial blanking — and a kept pixel is fully opaque.
pub proof fn lemma_masking_atomic(seed: u64, p: AnimationParams, t: int, x: int, y: int)
    ensures
        !spec_keep(p.shape, x, y, p.width as int, p.height as int) ==> spec_pixel_rgba(
            seed,
            p,
            t,
            x,
            y,
        ) == (0int, 0int, 0int, 0int),
        spec_keep(p.shape, x, y, p.width as int, p.height as int) ==> spec_pixel_rgba(
            seed,
            p,
            t,
            x,
            y,
        ).3 == 255,
{
}

/// Periodicity at the pixel level: because the circle point of frame
/// `t + n` is exactly the circle point of frame `t`, the sampler sees
/// identical inputs for the two frames, and every pixel's RGBA
/// quadruple is identical.
pub proof fn lemma_pixel_periodic(seed: u64, p: AnimationParams, t: int, x: int, y: int)
    requires
        p.valid(),
        0 <= t,
    ensures
        spec_pixel_rgba(seed, p, t + p.frame_count, x, y) == spec_pixel_rgba(seed, p, t, x, y),
{
    lemma_circle_point_periodic(t, p.frame_count as int, p.radius as int);
}

/// Periodicity at the frame level: the buffer computed for frame index
/// `t + n` of an `n`-frame loop is byte-for-byte the buffer of frame
/// `t`; in particular the conceptual wrap-around frame `n` equals frame
/// zero, which is what makes the loop seamless.
pub proof fn lemma_frame_periodic(seed: u64, p: AnimationParams, t: int)
    requires
        p.valid(),
        0 <= t,
    ensures
        spec_frame(seed, p, t + p.frame_count) == spec_frame(seed, p, t),
{
    let s1 = spec_frame(seed, p, t + p.frame_count);
    let s2 = spec_frame(seed, p, t);
    assert forall|i: int| 0 <= i < s1.len() implies s1[i] == s2[i] by {
        let pix = i / 4;
        let x = pix % (p.width as int);
        let y = pix / (p.width as int);
        lemma_pixel_periodic(seed, p, t, x, y);
    }
    assert(s1 =~= s2);
}

/// The byte index of channel `ch` of pixel `(x, y)` decomposes back
/// into exactly that pixel and channel.
proof fn lemma_frame_index(p: AnimationParams, x: int, y: int, ch: int)
    requires
        p.valid(),
        0 <= x < p.width,
        0 <= y < p.height,
        0 <= ch < 4,
    ensures
        ({
            let pix = y * p.width + x;
            let i = 4 * pix + ch;
            &&& 0 <= i < 4 * p.width * p.height
            &&& i / 4 == pix
            &&& i % 4 == ch
            &&& pix % (p.width as int) == x
            &&& pix / (p.width as int) == y
        }),
{
    let wi = p.width as int;
    let hi = p.height as int;
    let pix = y * wi + x;
    let i = 4 * pix + ch;
    assert(0 <= y * wi && pix * 4 == 4 * pix) by (nonlinear_arith)
        requires 0 <= y, 0 <= wi;
    lemma_fundamental_div_mod_converse_div(i, 4, pix, ch);
    lemma_fundamental_div_mod_converse_mod(i, 4, pix, ch);
    lemma_fundamental_div_mod_converse_div(pix, wi, y, x);
    lemma_fundamental_div_mod_converse_mod(pix, wi, y, x);
    assert(4 * (y * wi + x) + ch < 4 * wi * hi) by (nonlinear_arith)
        requires 0 <= x < wi, 0 <= y < hi, ch < 4;
}

/// The byte at channel `ch` of pixel `(x, y)` of the specified frame is
/// the corresponding channel of that pixel's RGBA quadruple.
proof fn lemma_frame_byte(seed: u64, p: AnimationParams, t: int, x: int, y: int, ch: int)
    requires
        p.valid(),
        0 <= x < p.width,
        0 <= y < p.height,
        0 <= ch < 4,
    ensures
        spec_frame(seed, p, t)[4 * (y * p.width + x) + ch] == spec_channel(
            spec_pixel_rgba(seed, p, t, x, y),
            ch,
        ) as u8,
{
    lemma_frame_index(p, x, y, ch);
}

/// Renders one frame into a fresh RGBA buffer. The buffer is exactly
/// `width * height * 4` bytes and holds, at every index, the byte the
/// per-pixel specification prescribes for this frame.
#[verifier::loop_isolation(false)]
#[verifier::rlimit(100)]
pub fn render_frame(sampler: &WarpedSampler, p: &AnimationParams, t: u64) -> (frame: Vec<u8>)
    requires
        p.valid(),
    ensures
        frame@ == spec_frame(sampler.field.seed, *p, t as int),
        frame@.len() == 4 * p.width * p.height,
{
    let zw: (i64, i64) = circle_point(t, p.frame_count, p.radius);
    let cz: i64 = zw.0;
    let cw: i64 = zw.1;
    let ghost target = spec_frame(sampler.field.seed, *p, t as int);
    let mut frame: Vec<u8> = Vec::new();
    let mut y: u64 = 0;
    while y < p.height
        invariant
            y <= p.height,
            frame@.len() == 4 * (y * p.width),
            forall|i: int| 0 <= i < frame@.len() ==> frame@[i] == target[i],
        decreases p.height - y,
    {
        let mut x: u64 = 0;
        while x < p.width
            invariant
                x <= p.width,
                y < p.height,
                frame@.len() == 4 * (y * p.width + x),
                forall|i: int| 0 <= i < frame@.len() ==> frame@[i] == target[i],
            decreases p.width - x,
        {
            let v: i64 = sampler.sample_pixel(x, y, p.width, p.height, p.scale, cz, cw);
            let c: (u8, u8, u8) = map_color(v);
            let kept: bool = keep(p.shape, x, y, p.width, p.height);
            proof {
                lemma_color_in_range(v as int);
            }
            if kept {
                frame.push(c.0);
                frame.push(c.1);
                frame.push(c.2);
                frame.push(255);
            } else {
                frame.push(0);
                frame.push(0);
                frame.push(0);
                frame.push(0);
            }
            proof {
                let wi = p.width as int;
                let base = 4 * ((y as int) * wi + (x as int));
                lemma_frame_byte(sampler.field.seed, *p, t as int, x as int, y as int, 0);
                lemma_frame_byte(sampler.field.seed, *p, t as int, x as int, y as int, 1);
                lemma_frame_byte(sampler.field.seed, *p, t as int, x as int, y as int, 2);
                lemma_frame_byte(sampler.field.seed, *p, t as int, x as int, y as int, 3);
                assert(forall|i: int| 0 <= i < frame@.len() ==> frame@[i] == target[i]);
                assert(4 * ((y as int) * wi + (x as int) + 1) == base + 4);
            }
            x = x + 1;
        }
        proof {
            assert((y as int + 1) * (p.width as int) == (y as int) * (p.width as int) + (
            p.width as int)) by (nonlinear_arith);
        }
        y = y + 1;
    }
    proof {
        assert(4 * ((p.height as int) * (p.width as int)) == 4 * (p.width as int) * (
        p.height as int)) by (nonlinear_arith);
        assert(frame@ =~= target);
    }
    frame
}

/// Renders the whole animation: one buffer per frame, in frame order.
/// The sequence has exactly `frame_count` buffers and buffer `t` is
/// exactly the specification's frame `t`.
#[verifier::loop_isolation(false)]
pub fn render_animation(sampler: &WarpedSampler, p: &AnimationParams) -> (frames: Vec<Vec<u8>>)
    requires
        p.valid(),
    ensures
        frames@.len() == p.frame_count,
        forall|t: int| 0 <= t < p.frame_count ==> frames@[t]@ == spec_frame(
            sampler.field.seed,
            *p,
            t,
        ),
{
    let mut frames: Vec<Vec<u8>> = Vec::new();
    let mut t: u64 = 0;
    while t < p.frame_count
        invariant
            t <= p.frame_count,
            frames@.len() == t,
            forall|j: int| 0 <= j < t ==> frames@[j]@ == spec_frame(sampler.field.seed, *p, j),
        decreases p.frame_count - t,
    {
        let frame: Vec<u8> = render_frame(sampler, p, t);
        frames.push(frame);
        t = t + 1;
    }
    frames
}

} // verus!
