//! The immutable configuration of one run. Every field is a run-start
//! constant: nothing here ever changes between frames or pixels.
//!
//! Validation fails fast, before any computation: a zero extent or a
//! zero frame count is rejected, as are values outside the ranges the
//! fixed-point pipeline and the output container can carry (extents are
//! written to the container as 16-bit numbers; the radius and the scale
//! must fit the fixed-point arithmetic's headroom).

use vstd::prelude::*;
use crate::mask::ShapeKind;
use crate::warp::{RADIUS_MAX, SCALE_MAX};

verus! {

/// How often the finished animation plays.
#[derive(Clone, Copy, PartialEq, Eq, Structural, Debug)]
pub enum RepeatPolicy {
    /// Play the loop a single time.
    Once,
    /// Repeat the loop forever.
    Infinite,
}

/// Why a configuration was rejected.
#[derive(Clone, Copy, PartialEq, Eq, Structural, Debug)]
pub enum ConfigError {
    /// The image width was zero.
    ZeroWidth,
    /// The image height was zero.
    ZeroHeight,
    /// The frame count was zero.
    ZeroFrameCount,
    /// The image width exceeds what the output container can carry.
    WidthTooLarge,
    /// The image height exceeds what the output container can carry.
    HeightTooLarge,
    /// The frame count exceeds the angular arithmetic's range.
    FrameCountTooLarge,
    /// The circle radius exceeds the fixed-point range.
    RadiusOutOfRange,
    /// The spatial scale exceeds the fixed-point range.
    ScaleOutOfRange,
}

/// The immutable parameters of one animation run.
#[derive(Clone, Copy, PartialEq, Eq, Structural, Debug)]
pub struct AnimationParams {
    /// Radius of the auxiliary circle, fixed-point; controls how much
    /// the warp varies over the loop.
    pub radius: i64,
    /// Image width in pixels.
    pub width: u64,
    /// Image height in pixels.
    pub height: u64,
    /// Number of frames in one revolution of the loop.
    pub frame_count: u64,
    /// Spatial scale, fixed-point: the extent of the sampled domain.
    pub scale: i64,
    /// Which silhouette clips the image.
    pub shape: ShapeKind,
    /// How often the finished animation plays.
    pub repeat: RepeatPolicy,
}

impl AnimationParams {
    /// A configuration the pipeline accepts: positive extents and frame
    /// count, everything within the ranges the arithmetic carries.
    pub open spec fn valid(self) -> bool {
        &&& 1 <= self.width <= 65535
        &&& 1 <= self.height <= 65535
        &&& 1 <= self.frame_count <= 0x1_0000_0000
        &&& -RADIUS_MAX <= self.radius <= RADIUS_MAX
        &&& -SCALE_MAX <= self.scale <= SCALE_MAX
    }

    /// What validation decides for given inputs, error precedence
    /// included.
    pub open spec fn spec_new(
        radius: i64,
        width: u64,
        height: u64,
        frame_count: u64,
        scale: i64,
        shape: ShapeKind,
        repeat: RepeatPolicy,
    ) -> Result<AnimationParams, ConfigError> {
        if width == 0 {
            Err(ConfigError::ZeroWidth)
        } else if height == 0 {
            Err(ConfigError::ZeroHeight)
        } else if frame_count == 0 {
            Err(ConfigError::ZeroFrameCount)
        } else if width > 65535 {
            Err(ConfigError::WidthTooLarge)
        } else if height > 65535 {
            Err(ConfigError::HeightTooLarge)
        } else if frame_count > 0x1_0000_0000 {
            Err(ConfigError::FrameCountTooLarge)
        } else if radius < -RADIUS_MAX || radius > RADIUS_MAX {
            Err(ConfigError::RadiusOutOfRange)
        } else if scale < -SCALE_MAX || scale > SCALE_MAX {
            Err(ConfigError::ScaleOutOfRange)
        } else {
            Ok(AnimationParams { radius, width, height, frame_count, scale, shape, repeat })
        }
    }

    /// Validates a configuration. Succeeds exactly on the valid ones,
    /// and then carries the inputs through unchanged; each rejection
    /// names the first offending field.
    pub fn new(
        radius: i64,
        width: u64,
        height: u64,
        frame_count: u64,
        scale: i64,
        shape: ShapeKind,
        repeat: RepeatPolicy,
    ) -> (r: Result<AnimationParams, ConfigError>)
        ensures
            r == Self::spec_new(radius, width, height, frame_count, scale, shape, repeat),
            r is Ok <==> (AnimationParams {
                radius,
                width,
                height,
                frame_count,
                scale,
                shape,
                repeat,
            }).valid(),
            r is Ok ==> r->Ok_0 == (AnimationParams {
                radius,
                width,
                height,
                frame_count,
                scale,
                shape,
                repeat,
            }),
    {
        if width == 0 {
            Err(ConfigError::ZeroWidth)
        } else if height == 0 {
            Err(ConfigError::ZeroHeight)
        } else if frame_count == 0 {
            Err(ConfigError::ZeroFrameCount)
        } else if width > 65535 {
            Err(ConfigError::WidthTooLarge)
        } else if height > 65535 {
            Err(ConfigError::HeightTooLarge)
        } else if frame_count > 0x1_0000_0000 {
            Err(ConfigError::FrameCountTooLarge)
        } else if radius < -RADIUS_MAX || radius > RADIUS_MAX {
            Err(ConfigError::RadiusOutOfRange)
        } else if scale < -SCALE_MAX || scale > SCALE_MAX {
            Err(ConfigError::ScaleOutOfRange)
        } else {
            Ok(AnimationParams { radius, width, height, frame_count, scale, shape, repeat })
        }
    }
}

} // verus!
