//! The whole sky unrolled into a fixed frame, with black bars where the window has another shape.

use vstd::prelude::*;

use super::{CameraUniform, FrameViewport};
use crate::geometry::PhysicalSize;

verus! {

/// Degrees that the frame spans from left to right.
pub const HORIZONTAL_FOV_DEGREES: u64 = 360;

/// Degrees that the frame spans from bottom to top.
pub const VERTICAL_FOV_DEGREES: u64 = 95;

/// The projection of the full turn of the horizon onto a rectangle.
#[derive(Clone, Copy, Debug, PartialEq, Eq, Structural)]
pub struct Equirectangular;

impl Equirectangular {
    /// The part of a window of `size` that shows the sky.
    pub fn viewport(&self, size: PhysicalSize) -> (viewport: FrameViewport)
        ensures
            letterboxed(viewport, size.nonempty()),
            viewport == letterbox(size.nonempty()),
    {
        letterbox_viewport(size)
    }

    /// This projection has no camera.
    pub fn camera_uniform(&self) -> (camera: CameraUniform)
        ensures
            camera == CameraUniform::none(),
    {
        CameraUniform { yaw: 0, pitch: 0, half_height: 0, distance: 1 }
    }
}

/// The window is wider than the frame, so the bars stand at its sides.
pub open spec fn wider_than_frame(size: PhysicalSize) -> bool {
    size.width * VERTICAL_FOV_DEGREES > size.height * HORIZONTAL_FOV_DEGREES
}

/// `viewport` has the shape of the frame, lies in the middle of a window of `size`, and reaches
/// two of its edges.
pub open spec fn letterboxed(viewport: FrameViewport, size: PhysicalSize) -> bool {
    &&& viewport.wf()
    &&& viewport.width * VERTICAL_FOV_DEGREES == viewport.height * HORIZONTAL_FOV_DEGREES
    &&& 2 * viewport.x + viewport.width == size.width * viewport.denominator
    &&& 2 * viewport.y + viewport.height == size.height * viewport.denominator
    &&& if wider_than_frame(size) {
        viewport.y == 0
    } else {
        viewport.x == 0
    }
}

/// The frame in a window of `size`, in the parts of a pixel in which it comes out whole.
pub open spec fn letterbox(size: PhysicalSize) -> FrameViewport {
    if wider_than_frame(size) {
        FrameViewport {
            x: (19 * size.width - 72 * size.height) as u64,
            y: 0,
            width: (144 * size.height) as u64,
            height: (38 * size.height) as u64,
            denominator: 38,
        }
    } else {
        FrameViewport {
            x: 0,
            y: (72 * size.height - 19 * size.width) as u64,
            width: (144 * size.width) as u64,
            height: (38 * size.width) as u64,
            denominator: 144,
        }
    }
}

/// The largest frame of 360 by 95 degrees, centred in a window of `size`.
pub fn letterbox_viewport(size: PhysicalSize) -> (viewport: FrameViewport)
    ensures
        letterboxed(viewport, size.nonempty()),
        viewport == letterbox(size.nonempty()),
{
    let surface = size.at_least_one();
    let width: u64 = surface.width as u64;
    let height: u64 = surface.height as u64;
    if width * VERTICAL_FOV_DEGREES > height * HORIZONTAL_FOV_DEGREES {
        FrameViewport {
            x: 19 * width - 72 * height,
            y: 0,
            width: 144 * height,
            height: 38 * height,
            denominator: 38,
        }
    } else {
        FrameViewport {
            x: 0,
            y: 72 * height - 19 * width,
            width: 144 * width,
            height: 38 * width,
            denominator: 144,
        }
    }
}

/// No frame of the same shape that fits the window is larger than the letterboxed one.
pub proof fn law_letterbox_is_largest(
    viewport: FrameViewport,
    other: FrameViewport,
    size: PhysicalSize,
)
    requires
        letterboxed(viewport, size),
        other.wf(),
        other.width * VERTICAL_FOV_DEGREES == other.height * HORIZONTAL_FOV_DEGREES,
        other.x + other.width <= size.width * other.denominator,
        other.y + other.height <= size.height * other.denominator,
    ensures
        other.width * viewport.denominator <= viewport.width * other.denominator,
        other.height * viewport.denominator <= viewport.height * other.denominator,
{
    let d: int = viewport.denominator as int;
    let e: int = other.denominator as int;
    if wider_than_frame(size) {
        assert(other.height * d <= viewport.height * e) by (nonlinear_arith)
            requires
                other.height <= size.height * e,
                viewport.height == size.height * d,
                d > 0,
                e > 0,
        ;
    } else {
        assert(other.width * d <= viewport.width * e) by (nonlinear_arith)
            requires
                other.width <= size.width * e,
                viewport.width == size.width * d,
                d > 0,
                e > 0,
        ;
    }
    assert(95 * (other.width * d) == 360 * (other.height * d)) by (nonlinear_arith)
        requires
            other.width * 95 == other.height * 360,
    ;
    assert(95 * (viewport.width * e) == 360 * (viewport.height * e)) by (nonlinear_arith)
        requires
            viewport.width * 95 == viewport.height * 360,
    ;
}

/// A window of exactly the frame's shape is filled without bars.
pub proof fn law_matching_window_is_filled(viewport: FrameViewport, size: PhysicalSize)
    requires
        letterboxed(viewport, size),
        size.width * VERTICAL_FOV_DEGREES == size.height * HORIZONTAL_FOV_DEGREES,
    ensures
        viewport.x == 0,
        viewport.y == 0,
        viewport.width == size.width * viewport.denominator,
        viewport.height == size.height * viewport.denominator,
{
    let d: int = viewport.denominator as int;
    assert(95 * (size.width * d) == 360 * (size.height * d)) by (nonlinear_arith)
        requires
            size.width * 95 == size.height * 360,
    ;
}

} // verus!
