//! How the sky is projected onto a window, and how the view is steered.

pub mod equirectangular;
pub mod perspective;

pub use equirectangular::Equirectangular;
pub use perspective::{CameraControl, CameraView, Perspective};

use vstd::prelude::*;
use vstd::string::*;

use crate::angle::SolarPosition;
use crate::geometry::PhysicalSize;
use crate::text::push_decimal;

verus! {

/// One line of wheel movement.
pub const SCROLL_LINE: i128 = 100_000_000_000;

/// A rectangle in a window, measured in equal parts of a pixel: `denominator` parts make one.
#[derive(Clone, Copy, Debug, PartialEq, Eq, Structural)]
pub struct FrameViewport {
    pub x: u64,
    pub y: u64,
    pub width: u64,
    pub height: u64,
    pub denominator: u64,
}

impl FrameViewport {
    /// A pixel has at least one part.
    pub open spec fn wf(self) -> bool {
        self.denominator > 0
    }

    /// The whole of a window.
    pub open spec fn whole(size: PhysicalSize) -> FrameViewport {
        FrameViewport {
            x: 0,
            y: 0,
            width: size.width as u64,
            height: size.height as u64,
            denominator: 1,
        }
    }

    /// The whole of a window of `size`, of which each side counts at least one pixel.
    pub fn full(size: PhysicalSize) -> (viewport: FrameViewport)
        ensures
            viewport == FrameViewport::whole(size.nonempty()),
            viewport.wf(),
    {
        let surface = size.at_least_one();
        FrameViewport {
            x: 0,
            y: 0,
            width: surface.width as u64,
            height: surface.height as u64,
            denominator: 1,
        }
    }
}

/// What a shader needs to know of a camera. The tangent of half the vertical field of view is
/// `half_height` over `distance`.
#[derive(Clone, Copy, Debug, PartialEq, Eq, Structural)]
pub struct CameraUniform {
    pub yaw: i64,
    pub pitch: i64,
    pub half_height: u64,
    pub distance: u64,
}

impl CameraUniform {
    /// The values of a projection without a camera.
    pub open spec fn none() -> CameraUniform {
        CameraUniform { yaw: 0, pitch: 0, half_height: 0, distance: 1 }
    }
}

/// A movement of the mouse wheel or of a touch pad, in billionths of a line or of a pixel.
#[derive(Clone, Copy, Debug, PartialEq, Eq, Structural)]
pub enum MouseScrollDelta {
    LineDelta { horizontal: i64, vertical: i64 },
    PixelDelta { x: i64, y: i64 },
}

impl MouseScrollDelta {
    /// The vertical movement in units of which `SCROLL_LINE` make a line; a hundred pixels count
    /// as a line.
    pub open spec fn spec_lines(self) -> int {
        match self {
            MouseScrollDelta::LineDelta { vertical, .. } => vertical * 100,
            MouseScrollDelta::PixelDelta { y, .. } => y as int,
        }
    }

    /// The vertical movement in units of which `SCROLL_LINE` make a line.
    pub fn lines(self) -> (lines: i128)
        ensures
            lines == self.spec_lines(),
    {
        match self {
            MouseScrollDelta::LineDelta { vertical, .. } => (vertical as i128) * 100,
            MouseScrollDelta::PixelDelta { y, .. } => y as i128,
        }
    }
}

/// The projections to choose from.
#[derive(Clone, Copy, Debug, PartialEq, Eq, Structural)]
pub enum ProjectionKind {
    Perspective,
    Equirectangular,
}

impl Default for ProjectionKind {
    fn default() -> (kind: ProjectionKind)
        ensures
            kind == ProjectionKind::Perspective,
    {
        ProjectionKind::Perspective
    }
}

/// The texts that the shaders are put together from.
pub struct ShaderTexts {
    /// Shared by the sky of both projections.
    pub sky: String,
    pub perspective: String,
    pub equirectangular: String,
    /// Shared by the stars of both projections.
    pub stars: String,
    pub perspective_stars: String,
    pub equirectangular_stars: String,
}

/// A projection with its state.
#[derive(Clone, Copy, Debug, PartialEq, Eq, Structural)]
pub enum Projection {
    Perspective(Perspective),
    Equirectangular(Equirectangular),
}

/// A focal length in whole millimetres; a half goes to the even neighbour.
pub open spec fn rounded_millimetres(nanometres: int) -> int {
    let whole = nanometres / 1_000_000;
    let rest = nanometres % 1_000_000;
    if rest > 500_000 || (rest == 500_000 && whole % 2 == 1) {
        whole + 1
    } else {
        whole
    }
}

/// Puts two texts together with a line break between them.
fn join_lines(first: &str, second: &str) -> (text: String)
    ensures
        text@ == first@ + "\n"@ + second@,
{
    let mut text = String::new();
    text.append(first);
    text.append("\n");
    text.append(second);
    assert(text@ == first@ + "\n"@ + second@);
    text
}

impl Projection {
    /// The state of the projection is a proper one.
    pub open spec fn wf(self) -> bool {
        self matches Projection::Perspective(camera) ==> camera.wf()
    }

    /// A projection of the given kind in its first state.
    pub open spec fn of_kind(kind: ProjectionKind) -> Projection {
        match kind {
            ProjectionKind::Perspective => Projection::Perspective(Perspective::initial()),
            ProjectionKind::Equirectangular => Projection::Equirectangular(Equirectangular),
        }
    }

    /// The projection after a key press that turns the camera.
    pub open spec fn after_control(self, control: CameraControl, sun: SolarPosition) -> Projection {
        match self {
            Projection::Perspective(camera) => Projection::Perspective(
                camera.after_control(control, sun),
            ),
            Projection::Equirectangular(_) => self,
        }
    }

    /// The projection after its view has been reset.
    pub open spec fn after_reset(self) -> Projection {
        match self {
            Projection::Perspective(camera) => Projection::Perspective(camera.after_reset()),
            Projection::Equirectangular(_) => self,
        }
    }

    /// The projection after the wheel has been turned by `lines`.
    pub open spec fn after_scroll(self, lines: int, zoom: u64) -> Projection {
        match self {
            Projection::Perspective(camera) => Projection::Perspective(
                camera.after_scroll(lines, zoom),
            ),
            Projection::Equirectangular(_) => self,
        }
    }

    /// What the shaders need to know of the camera while the sun stands at `sun`.
    pub open spec fn spec_camera(self, sun: SolarPosition) -> CameraUniform {
        match self {
            Projection::Perspective(state) => CameraUniform {
                yaw: state.view(sun).yaw,
                pitch: state.view(sun).pitch,
                half_height: perspective::HALF_SENSOR_HEIGHT_NM,
                distance: state.focal_length_nm,
            },
            Projection::Equirectangular(_) => CameraUniform::none(),
        }
    }

    /// The part of a window of `size` that shows the sky.
    pub open spec fn spec_viewport(self, size: PhysicalSize) -> FrameViewport {
        match self {
            Projection::Perspective(_) => FrameViewport::whole(size.nonempty()),
            Projection::Equirectangular(_) => equirectangular::letterbox(size.nonempty()),
        }
    }

    /// The short description of the projection.
    pub open spec fn spec_label(self) -> Seq<char> {
        match self {
            Projection::Perspective(camera) => "perspective "@ + crate::text::decimal(
                rounded_millimetres(camera.focal_length_nm as int) as nat,
            ) + " mm"@,
            Projection::Equirectangular(_) => "equirectangular 360°"@,
        }
    }

    /// A projection of the given kind in its first state.
    pub fn new(kind: ProjectionKind) -> (projection: Projection)
        ensures
            projection == Projection::of_kind(kind),
            projection.wf(),
    {
        match kind {
            ProjectionKind::Perspective => Projection::Perspective(Perspective::default()),
            ProjectionKind::Equirectangular => Projection::Equirectangular(Equirectangular),
        }
    }

    /// The text of the sky shader: the shared part, then the part of this projection.
    pub fn shader_source(&self, texts: &ShaderTexts) -> (source: String)
        ensures
            source@ == texts.sky@ + "\n"@ + match *self {
                Projection::Perspective(_) => texts.perspective@,
                Projection::Equirectangular(_) => texts.equirectangular@,
            },
    {
        match self {
            Projection::Perspective(_) => join_lines(
                texts.sky.as_str(),
                texts.perspective.as_str(),
            ),
            Projection::Equirectangular(_) => join_lines(
                texts.sky.as_str(),
                texts.equirectangular.as_str(),
            ),
        }
    }

    /// The text of the star shader: the shared part, then the part of this projection.
    pub fn star_shader_source(&self, texts: &ShaderTexts) -> (source: String)
        ensures
            source@ == texts.stars@ + "\n"@ + match *self {
                Projection::Perspective(_) => texts.perspective_stars@,
                Projection::Equirectangular(_) => texts.equirectangular_stars@,
            },
    {
        match self {
            Projection::Perspective(_) => join_lines(
                texts.stars.as_str(),
                texts.perspective_stars.as_str(),
            ),
            Projection::Equirectangular(_) => join_lines(
                texts.stars.as_str(),
                texts.equirectangular_stars.as_str(),
            ),
        }
    }

    /// The part of a window of `size` that shows the sky.
    pub fn viewport(&self, size: PhysicalSize) -> (viewport: FrameViewport)
        ensures
            viewport == self.spec_viewport(size),
            viewport.wf(),
    {
        match self {
            Projection::Perspective(_) => FrameViewport::full(size),
            Projection::Equirectangular(projection) => projection.viewport(size),
        }
    }

    /// What the shaders need to know of the camera.
    pub fn camera_uniform(&self, sun: SolarPosition) -> (camera: CameraUniform)
        requires
            self.wf(),
            sun.wf(),
        ensures
            camera == self.spec_camera(sun),
            camera.distance > 0,
    {
        match self {
            Projection::Perspective(state) => state.camera_uniform(sun),
            Projection::Equirectangular(projection) => projection.camera_uniform(),
        }
    }

    /// Zooms by the factor `zoom`, in billionths, that belongs to the wheel movement; tells
    /// whether there is anything to draw anew.
    pub fn handle_scroll(&mut self, delta: MouseScrollDelta, zoom: u64) -> (changed: bool)
        requires
            old(self).wf(),
        ensures
            changed == (*old(self) is Perspective && delta.spec_lines() != 0),
            *final(self) == old(self).after_scroll(delta.spec_lines(), zoom),
            final(self).wf(),
    {
        match self {
            Projection::Perspective(camera) => camera.handle_scroll(delta, zoom),
            Projection::Equirectangular(_) => false,
        }
    }

    /// Turns the camera one step; tells whether there is one.
    pub fn adjust_view(&mut self, control: CameraControl, sun: SolarPosition) -> (changed: bool)
        requires
            old(self).wf(),
            sun.wf(),
        ensures
            changed == *old(self) is Perspective,
            *final(self) == old(self).after_control(control, sun),
            final(self).wf(),
    {
        match self {
            Projection::Perspective(camera) => {
                camera.adjust_view(control, sun);
                true
            },
            Projection::Equirectangular(_) => false,
        }
    }

    /// Lets the camera follow the sun again; tells whether there is one.
    pub fn reset_view(&mut self) -> (changed: bool)
        requires
            old(self).wf(),
        ensures
            changed == *old(self) is Perspective,
            *final(self) == old(self).after_reset(),
            final(self).wf(),
    {
        match self {
            Projection::Perspective(camera) => {
                camera.reset_view();
                true
            },
            Projection::Equirectangular(_) => false,
        }
    }

    /// The short description of the projection.
    pub fn label(&self) -> (label: String)
        requires
            self.wf(),
        ensures
            label@ == self.spec_label(),
    {
        let mut label = String::new();
        match self {
            Projection::Perspective(camera) => {
                let focal: u64 = camera.focal_length_nm();
                let whole: u64 = focal / 1_000_000;
                let rest: u64 = focal % 1_000_000;
                let rounded: u64 = if rest > 500_000 || (rest == 500_000 && whole % 2 == 1) {
                    whole + 1
                } else {
                    whole
                };
                label.append("perspective ");
                push_decimal(&mut label, rounded);
                label.append(" mm");
            },
            Projection::Equirectangular(_) => {
                label.append("equirectangular 360°");
            },
        }
        assert(label@ == self.spec_label());
        label
    }
}

/// The unrolled sky has nothing to steer: no key press and no wheel movement changes it.
pub proof fn law_equirectangular_is_fixed(
    projection: Projection,
    control: CameraControl,
    sun: SolarPosition,
    lines: int,
    zoom: u64,
)
    requires
        projection is Equirectangular,
    ensures
        projection.after_control(control, sun) == projection,
        projection.after_reset() == projection,
        projection.after_scroll(lines, zoom) == projection,
{
}

/// The unrolled sky keeps its shape of 360 to 95 in every window, stands in the middle, and reaches
/// two opposite edges: the bars are at the sides of a window that is wider than the frame, and
/// above and below in any other. A camera fills the window.
pub proof fn law_viewports_keep_their_shape(projection: Projection, size: PhysicalSize)
    requires
        size.width > 0,
        size.height > 0,
    ensures
        ({
            let viewport = projection.spec_viewport(size);
            let denominator = viewport.denominator as int;
            &&& denominator > 0
            &&& 2 * viewport.x + viewport.width == size.width * denominator
            &&& 2 * viewport.y + viewport.height == size.height * denominator
            &&& match projection {
                Projection::Equirectangular(_) => {
                    &&& 95 * viewport.width == 360 * viewport.height
                    &&& viewport.x == 0 || viewport.y == 0
                    &&& 95 * size.width > 360 * size.height ==> viewport.y == 0
                    &&& 95 * size.width <= 360 * size.height ==> viewport.x == 0
                },
                Projection::Perspective(_) => viewport.x == 0 && viewport.y == 0,
            }
        }),
{
    let viewport = projection.spec_viewport(size);
    let denominator = viewport.denominator as int;
    let width = size.width as int;
    let height = size.height as int;
    if denominator == 38 {
        assert(width * denominator == 38 * width && height * denominator == 38 * height)
            by (nonlinear_arith)
            requires
                denominator == 38,
        ;
    } else if denominator == 144 {
        assert(width * denominator == 144 * width && height * denominator == 144 * height)
            by (nonlinear_arith)
            requires
                denominator == 144,
        ;
    } else {
        assert(width * denominator == width && height * denominator == height)
            by (nonlinear_arith)
            requires
                denominator == 1,
        ;
    }
}

/// A window without a size is treated like one of a single pixel.
pub proof fn law_empty_windows_have_a_viewport(projection: Projection, size: PhysicalSize)
    ensures
        projection.spec_viewport(size) == projection.spec_viewport(size.nonempty()),
{
}

/// A fresh projection is of the kind that was asked for; a camera starts with a lens of 50 mm and
/// follows the sun.
pub proof fn law_projections_start_afresh(kind: ProjectionKind)
    ensures
        Projection::of_kind(kind) is Perspective <==> kind is Perspective,
        Projection::of_kind(kind) matches Projection::Perspective(camera)
            ==> camera.focal_length_nm == 50_000_000 && camera.manual_view is None,
{
}

/// What the shaders get of a camera: where it looks, and the field of view that a sensor of 24 mm
/// height has behind its lens, whatever the window. The unrolled sky has no camera.
pub proof fn law_cameras_show_their_field(projection: Projection, sun: SolarPosition)
    ensures
        ({
            let shown = projection.spec_camera(sun);
            match projection {
                Projection::Perspective(camera) => {
                    &&& shown.yaw == camera.view(sun).yaw
                    &&& shown.pitch == camera.view(sun).pitch
                    &&& 2 * shown.half_height * camera.focal_length_nm == 24_000_000
                        * shown.distance
                    &&& camera.focal_length_nm > 0 ==> shown.distance > 0
                },
                Projection::Equirectangular(_) => {
                    &&& shown.yaw == 0 && shown.pitch == 0
                    &&& shown.half_height == 0 && shown.distance > 0
                },
            }
        }),
{
}

/// What steers a projection steers its camera, and leaves it a projection of the same kind.
pub proof fn law_projections_steer_their_camera(
    camera: Perspective,
    control: CameraControl,
    sun: SolarPosition,
    lines: int,
    zoom: u64,
)
    ensures
        Projection::Perspective(camera).after_control(control, sun) == Projection::Perspective(
            camera.after_control(control, sun),
        ),
        Projection::Perspective(camera).after_reset() == Projection::Perspective(
            camera.after_reset(),
        ),
        Projection::Perspective(camera).after_scroll(lines, zoom) == Projection::Perspective(
            camera.after_scroll(lines, zoom),
        ),
{
}

/// The description of a camera gives its focal length in the nearest millimetre; from the middle
/// between two it goes to the even one.
pub proof fn law_labels_give_the_nearest_millimetre(camera: Perspective)
    ensures
        ({
            let label = Projection::Perspective(camera).spec_label();
            let digits = label.subrange(12, label.len() - 3);
            let millimetres = crate::text::number_of(digits);
            let error = 1_000_000 * millimetres - camera.focal_length_nm;
            &&& label.len() > 15
            &&& label.take(12) == "perspective "@
            &&& label.skip(label.len() - 3) == " mm"@
            &&& -500_000 <= error <= 500_000
            &&& error == 500_000 || error == -500_000 ==> millimetres % 2 == 0
            &&& digits == crate::text::decimal(millimetres as nat)
        }),
{
    reveal_strlit("perspective ");
    reveal_strlit(" mm");
    let rounded = rounded_millimetres(camera.focal_length_nm as int);
    crate::text::law_decimals_read_back(rounded as nat);
    let label = Projection::Perspective(camera).spec_label();
    assert(label.subrange(12, label.len() - 3) =~= crate::text::decimal(rounded as nat));
    assert(label.take(12) =~= "perspective "@);
    assert(label.skip(label.len() - 3) =~= " mm"@);
}

/// Only the vertical movement of the wheel counts; a line counts as a hundred pixels, and movements
/// add up.
pub proof fn law_a_line_is_a_hundred_pixels(
    horizontal: i64,
    other_horizontal: i64,
    lines: i64,
    pixels: i64,
    more: i64,
)
    ensures
        ({
            let by_line = (MouseScrollDelta::LineDelta { horizontal, vertical: lines });
            let sideways = (MouseScrollDelta::LineDelta {
                horizontal: other_horizontal,
                vertical: lines,
            });
            let by_pixel = (MouseScrollDelta::PixelDelta { x: horizontal, y: pixels });
            let pixels_sideways = (MouseScrollDelta::PixelDelta { x: other_horizontal, y: pixels });
            let further = (MouseScrollDelta::PixelDelta { x: horizontal, y: more });
            let more_lines = (MouseScrollDelta::LineDelta { horizontal, vertical: more });
            &&& by_line.spec_lines() == sideways.spec_lines()
            &&& by_pixel.spec_lines() == pixels_sideways.spec_lines()
            &&& pixels == 100 * lines ==> by_pixel.spec_lines() == by_line.spec_lines()
            &&& further.spec_lines() - by_pixel.spec_lines() == more - pixels
            &&& more_lines.spec_lines() - by_line.spec_lines() == 100 * (more - lines)
            &&& lines == 1_000_000_000 ==> by_line.spec_lines() == SCROLL_LINE
            &&& lines == 0 ==> by_line.spec_lines() == 0
            &&& pixels == 0 ==> by_pixel.spec_lines() == 0
        }),
{
}

} // verus!
