//! Rendering tests on small configurations: frame layout, loop
//! periodicity, masking atomicity.

use noise_loop::mask::ShapeKind;
use noise_loop::params::{AnimationParams, RepeatPolicy};
use noise_loop::render::{render_animation, render_frame};
use noise_loop::warp::WarpedSampler;

fn small_params(shape: ShapeKind) -> AnimationParams {
    AnimationParams::new(52428, 8, 8, 4, 524288, shape, RepeatPolicy::Once).unwrap()
}

#[test]
fn frame_has_rgba_layout() {
    let sampler = WarpedSampler::new(7);
    let p = small_params(ShapeKind::Circle);
    let frame = render_frame(&sampler, &p, 0);
    assert_eq!(frame.len(), 8 * 8 * 4);
}

#[test]
fn wrapped_frame_equals_first_frame() {
    let sampler = WarpedSampler::new(7);
    let p = small_params(ShapeKind::Circle);
    // One full revolution later, every pixel is bit-identical.
    assert_eq!(render_frame(&sampler, &p, 0), render_frame(&sampler, &p, 4));
    assert_eq!(render_frame(&sampler, &p, 1), render_frame(&sampler, &p, 5));
}

#[test]
fn single_frame_loop_is_constant() {
    let sampler = WarpedSampler::new(7);
    let p =
        AnimationParams::new(52428, 8, 8, 1, 524288, ShapeKind::Circle, RepeatPolicy::Once)
            .unwrap();
    let f0 = render_frame(&sampler, &p, 0);
    assert_eq!(f0, render_frame(&sampler, &p, 1));
    assert_eq!(f0, render_frame(&sampler, &p, 5));
}

#[test]
fn animation_collects_frames_in_order() {
    let sampler = WarpedSampler::new(7);
    let p = small_params(ShapeKind::Circle);
    let frames = render_animation(&sampler, &p);
    assert_eq!(frames.len(), 4);
    for (t, frame) in frames.iter().enumerate() {
        assert_eq!(frame, &render_frame(&sampler, &p, t as u64));
    }
}

#[test]
fn masking_is_atomic_for_circle() {
    let sampler = WarpedSampler::new(99);
    let p = small_params(ShapeKind::Circle);
    let frame = render_frame(&sampler, &p, 2);
    for y in 0..8usize {
        for x in 0..8usize {
            let i = 4 * (y * 8 + x);
            let px = &frame[i..i + 4];
            if px[3] == 0 {
                // An excluded pixel is blanked in all four channels.
                assert_eq!(px, &[0, 0, 0, 0]);
            } else {
                // A kept pixel is fully opaque.
                assert_eq!(px[3], 255);
            }
        }
    }
    // The corners are excluded, so they must be fully blank.
    for (x, y) in [(0usize, 0usize), (7, 0), (0, 7), (7, 7)] {
        let i = 4 * (y * 8 + x);
        assert_eq!(&frame[i..i + 4], &[0, 0, 0, 0]);
    }
    // The center pixel survives the mask, fully opaque.
    let c = 4 * (4 * 8 + 4);
    assert_eq!(frame[c + 3], 255);
}

#[test]
fn masking_is_atomic_for_piriform() {
    let sampler = WarpedSampler::new(99);
    let p = small_params(ShapeKind::Piriform);
    let frame = render_frame(&sampler, &p, 1);
    for y in 0..8usize {
        for x in 0..8usize {
            let i = 4 * (y * 8 + x);
            let px = &frame[i..i + 4];
            if px[3] == 0 {
                assert_eq!(px, &[0, 0, 0, 0]);
            } else {
                assert_eq!(px[3], 255);
            }
        }
    }
    // The whole first column sits on the teardrop's rim: excluded.
    for y in 0..8usize {
        let i = 4 * (y * 8);
        assert_eq!(&frame[i..i + 4], &[0, 0, 0, 0]);
    }
}
