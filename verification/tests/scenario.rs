//! The end-to-end scenario: a radius-0.05, 256 by 256, 128-frame,
//! scale-0.5, circle-masked, play-once animation has exactly 128 frames
//! of exactly 256*256 RGBA bytes, and its first frame equals the
//! conceptual wrap-around frame one revolution later.

use noise_loop::mask::ShapeKind;
use noise_loop::params::{AnimationParams, RepeatPolicy};
use noise_loop::render::{render_animation, render_frame};
use noise_loop::warp::WarpedSampler;

#[test]
fn full_loop_scenario() {
    // radius 0.05 and scale 0.5 in fixed point.
    let radius: i64 = 52428;
    let scale: i64 = 524288;
    let p = AnimationParams::new(
        radius,
        256,
        256,
        128,
        scale,
        ShapeKind::Circle,
        RepeatPolicy::Once,
    )
    .unwrap();
    let sampler = WarpedSampler::new(0);
    let frames = render_animation(&sampler, &p);
    assert_eq!(frames.len(), 128);
    for frame in &frames {
        assert_eq!(frame.len(), 256 * 256 * 4);
    }
    let wrapped = render_frame(&sampler, &p, 128);
    assert_eq!(frames[0], wrapped);
}
