//! Component-level tests: the circle point, the noise field, the warped
//! sampler, the color mapper, the masks and configuration validation.

use noise_loop::FP_ONE;
use noise_loop::circle::{circle_point, cosine_turns, frame_phase, sine_turns};
use noise_loop::color::map_color;
use noise_loop::mask::{circle_keep, keep, piriform_keep, ShapeKind};
use noise_loop::noise::NoiseField;
use noise_loop::params::{AnimationParams, ConfigError, RepeatPolicy};
use noise_loop::warp::{normalize, WarpedSampler};

#[test]
fn phase_wraps_exactly_once() {
    assert_eq!(frame_phase(0, 128), 0);
    assert_eq!(frame_phase(128, 128), 0);
    assert_eq!(frame_phase(127, 128), 127);
    assert_eq!(frame_phase(300, 128), 44);
}

#[test]
fn sine_exact_at_cardinal_angles() {
    assert_eq!(sine_turns(0), 0);
    assert_eq!(sine_turns(262144), FP_ONE);
    assert_eq!(sine_turns(524288), 0);
    assert_eq!(sine_turns(786432), -FP_ONE);
    assert_eq!(cosine_turns(0), FP_ONE);
    assert_eq!(cosine_turns(262144), 0);
    assert_eq!(cosine_turns(524288), -FP_ONE);
}

#[test]
fn sine_bounded_everywhere() {
    let mut u: u64 = 0;
    while u < 1048576 {
        let s = sine_turns(u);
        assert!(-FP_ONE <= s && s <= FP_ONE);
        u += 4099;
    }
}

#[test]
fn circle_point_exact_at_quadrants() {
    let radius: i64 = 52428;
    assert_eq!(circle_point(0, 4, radius), (radius, 0));
    assert_eq!(circle_point(1, 4, radius), (0, radius));
    assert_eq!(circle_point(2, 4, radius), (-radius, 0));
    assert_eq!(circle_point(3, 4, radius), (0, -radius));
}

#[test]
fn circle_point_periodic_for_arbitrary_frames() {
    let radius: i64 = 52428;
    for t in 0..130u64 {
        assert_eq!(circle_point(t, 128, radius), circle_point(t + 128, 128, radius));
    }
}

#[test]
fn noise_field_deterministic() {
    let f = NoiseField::new(0xfeed);
    let a = f.sample(12345, -9876, 777, -3);
    let b = f.sample(12345, -9876, 777, -3);
    assert_eq!(a, b);
    let g = NoiseField::new(0xfeed);
    assert_eq!(g.sample(12345, -9876, 777, -3), a);
}

#[test]
fn noise_field_bounded() {
    let f = NoiseField::new(42);
    let mut x: i64 = -2_000_000;
    while x < 2_000_000 {
        let v = f.sample(x, x / 2, -x, 100 + x);
        assert!(-FP_ONE <= v && v <= FP_ONE);
        x += 99_991;
    }
}

#[test]
fn noise_field_seed_matters() {
    let f = NoiseField::new(1);
    let g = NoiseField::new(2);
    let mut differs = false;
    for x in 0..64i64 {
        if f.sample(x * 131072, 0, 0, 0) != g.sample(x * 131072, 0, 0, 0) {
            differs = true;
        }
    }
    assert!(differs);
}

#[test]
fn sampler_deterministic_for_same_inputs() {
    let s = WarpedSampler::new(2024);
    let a = s.sample_pixel(17, 29, 256, 256, 524288, 52428, -52428);
    let b = s.sample_pixel(17, 29, 256, 256, 524288, 52428, -52428);
    assert_eq!(a, b);
    let v1 = s.sample(1000, -1000, 52428, 0);
    let v2 = s.sample(1000, -1000, 52428, 0);
    assert_eq!(v1, v2);
    assert!(-FP_ONE <= v1 && v1 <= FP_ONE);
}

#[test]
fn normalize_scales_pixel_fraction() {
    assert_eq!(normalize(128, 256, 524288), 262144);
    assert_eq!(normalize(0, 256, 524288), 0);
    assert_eq!(normalize(256, 256, 524288), 524288);
    assert_eq!(normalize(128, 256, -524288), -262144);
}

#[test]
fn color_extremes_stay_in_range() {
    let lo = map_color(-FP_ONE);
    let hi = map_color(FP_ONE);
    let mid = map_color(0);
    // Both extremes wrap onto the start of the hue circle: pure red.
    assert_eq!(lo, (255, 0, 0));
    assert_eq!(hi, (255, 0, 0));
    // The midpoint lands half way around the circle: cyan.
    assert_eq!(mid, (0, 255, 255));
}

#[test]
fn color_always_fully_saturated() {
    // Some channel is pinned at 255 for every scalar: the ramp is always
    // a maximally bright hue, never a dimmed or washed-out one.
    let mut v: i64 = -FP_ONE;
    while v <= FP_ONE {
        let (r, g, b) = map_color(v);
        assert!(r == 255 || g == 255 || b == 255);
        v += 8191;
    }
}

#[test]
fn circle_mask_center_kept_corners_excluded() {
    assert!(circle_keep(128, 128, 256, 256));
    assert!(!circle_keep(0, 0, 256, 256));
    assert!(!circle_keep(255, 0, 256, 256));
    assert!(!circle_keep(0, 255, 256, 256));
    assert!(!circle_keep(255, 255, 256, 256));
    // A non-square image: still the exact center, still all corners.
    assert!(circle_keep(320, 240, 640, 480));
    assert!(!circle_keep(0, 0, 640, 480));
    assert!(!circle_keep(639, 479, 640, 480));
}

#[test]
fn piriform_mask_rim_always_excluded() {
    for y in [0u64, 1, 100, 240, 479] {
        assert!(!piriform_keep(0, y, 640, 480));
        assert!(!piriform_keep(640, y, 640, 480));
    }
    // The teardrop's interior is kept.
    assert!(piriform_keep(320, 240, 640, 480));
}

#[test]
fn keep_dispatches_on_shape() {
    assert_eq!(keep(ShapeKind::Circle, 128, 128, 256, 256), circle_keep(128, 128, 256, 256));
    assert_eq!(
        keep(ShapeKind::Piriform, 128, 128, 256, 256),
        piriform_keep(128, 128, 256, 256)
    );
}

#[test]
fn params_accept_valid_configuration() {
    let p = AnimationParams::new(
        52428,
        256,
        256,
        128,
        524288,
        ShapeKind::Circle,
        RepeatPolicy::Once,
    )
    .unwrap();
    assert_eq!(p.radius, 52428);
    assert_eq!(p.width, 256);
    assert_eq!(p.height, 256);
    assert_eq!(p.frame_count, 128);
    assert_eq!(p.scale, 524288);
    assert_eq!(p.shape, ShapeKind::Circle);
    assert_eq!(p.repeat, RepeatPolicy::Once);
}

#[test]
fn params_reject_each_defect() {
    let mk = |radius: i64, w: u64, h: u64, n: u64, scale: i64| {
        AnimationParams::new(radius, w, h, n, scale, ShapeKind::Circle, RepeatPolicy::Once)
    };
    assert_eq!(mk(0, 0, 256, 128, 0), Err(ConfigError::ZeroWidth));
    assert_eq!(mk(0, 256, 0, 128, 0), Err(ConfigError::ZeroHeight));
    assert_eq!(mk(0, 256, 256, 0, 0), Err(ConfigError::ZeroFrameCount));
    assert_eq!(mk(0, 65536, 256, 128, 0), Err(ConfigError::WidthTooLarge));
    assert_eq!(mk(0, 256, 70000, 128, 0), Err(ConfigError::HeightTooLarge));
    assert_eq!(mk(0, 256, 256, 0x1_0000_0001, 0), Err(ConfigError::FrameCountTooLarge));
    assert_eq!(mk(0x100_0000_0001, 256, 256, 128, 0), Err(ConfigError::RadiusOutOfRange));
    assert_eq!(mk(0, 256, 256, 128, -0x4000_0001), Err(ConfigError::ScaleOutOfRange));
    // The first offending field decides.
    assert_eq!(mk(0, 0, 0, 0, 0), Err(ConfigError::ZeroWidth));
}
