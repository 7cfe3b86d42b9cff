//! A camera that follows the sun until it is steered by hand.

use vstd::prelude::*;

use super::{CameraUniform, MouseScrollDelta};
use crate::angle::{SolarPosition, DEGREE, FULL_TURN, HALF_TURN, RIGHT_ANGLE};

verus! {

/// The focal length of a new camera, in nanometres: a normal lens of 50 mm.
pub const DEFAULT_FOCAL_LENGTH_NM: u64 = 50_000_000;

/// Half the height of the sensor (24 mm), in nanometres.
pub const HALF_SENSOR_HEIGHT_NM: u64 = 12_000_000;

/// The shortest focal length, in nanometres: 12 mm.
pub const MIN_FOCAL_LENGTH_NM: u64 = 12_000_000;

/// The longest focal length, in nanometres: 300 mm.
pub const MAX_FOCAL_LENGTH_NM: u64 = 300_000_000;

/// A zoom by the factor one.
pub const ZOOM_UNIT: u64 = 1_000_000_000;

/// How far one key press turns the camera.
pub const ROTATION_STEP: i64 = DEGREE;

/// A key press that turns the camera.
#[derive(Clone, Copy, Debug, PartialEq, Eq, Structural)]
pub enum CameraControl {
    PitchUp,
    PitchDown,
    YawLeft,
    YawRight,
}

/// Where a camera looks.
#[derive(Clone, Copy, Debug, PartialEq, Eq, Structural)]
pub struct CameraView {
    /// Angle clockwise from true north.
    pub yaw: i64,
    /// Angle above the horizon.
    pub pitch: i64,
}

impl CameraView {
    /// The view lies between horizon and zenith, its yaw in one turn.
    pub open spec fn wf(self) -> bool {
        0 <= self.yaw < FULL_TURN && 0 <= self.pitch <= RIGHT_ANGLE
    }

    /// The view one step further.
    pub open spec fn turned(self, control: CameraControl) -> CameraView {
        let (yaw, pitch) = match control {
            CameraControl::PitchUp => (self.yaw as int, self.pitch + ROTATION_STEP),
            CameraControl::PitchDown => (self.yaw as int, self.pitch - ROTATION_STEP),
            CameraControl::YawLeft => (self.yaw - ROTATION_STEP, self.pitch as int),
            CameraControl::YawRight => (self.yaw + ROTATION_STEP, self.pitch as int),
        };
        CameraView {
            yaw: (yaw % FULL_TURN as int) as i64,
            pitch: (if pitch < 0 {
                0
            } else if pitch > RIGHT_ANGLE {
                RIGHT_ANGLE as int
            } else {
                pitch
            }) as i64,
        }
    }

    /// The view `steps` steps further.
    pub open spec fn turned_by(self, control: CameraControl, steps: nat) -> CameraView
        decreases steps,
    {
        if steps == 0 {
            self
        } else {
            self.turned_by(control, (steps - 1) as nat).turned(control)
        }
    }
}

/// The pitch that follows a sun at this elevation: it stops at the horizon.
pub open spec fn pitch_of(sun_elevation: i64) -> i64 {
    if sun_elevation < 0 {
        0
    } else {
        sun_elevation
    }
}

/// The view that follows the sun. Its yaw is counted from half a turn left of north to half a
/// turn right of it.
pub open spec fn tracked_view(sun: SolarPosition) -> CameraView {
    CameraView {
        yaw: if sun.azimuth <= HALF_TURN {
            sun.azimuth
        } else {
            (sun.azimuth - FULL_TURN) as i64
        },
        pitch: pitch_of(sun.elevation),
    }
}

/// The focal length after a zoom, rounded to whole nanometres and kept within the lens.
pub open spec fn zoomed(focal_length_nm: int, zoom: int) -> int {
    let scaled = (focal_length_nm * zoom + ZOOM_UNIT as int / 2) / ZOOM_UNIT as int;
    if scaled < MIN_FOCAL_LENGTH_NM {
        MIN_FOCAL_LENGTH_NM as int
    } else if scaled > MAX_FOCAL_LENGTH_NM {
        MAX_FOCAL_LENGTH_NM as int
    } else {
        scaled
    }
}

/// The factor `zoom` as far as it agrees with a wheel movement by `lines`: upwards it does not
/// shorten the focal length, downwards it does not lengthen it.
pub open spec fn directed(lines: int, zoom: u64) -> u64 {
    if (lines > 0 && zoom < ZOOM_UNIT) || (lines < 0 && zoom > ZOOM_UNIT) {
        ZOOM_UNIT
    } else {
        zoom
    }
}

/// The pitch that follows a sun at this elevation: it stops at the horizon.
pub fn camera_pitch(sun_elevation: i64) -> (pitch: i64)
    ensures
        pitch == pitch_of(sun_elevation),
{
    if sun_elevation < 0 {
        0
    } else {
        sun_elevation
    }
}

/// The view that follows the sun.
fn track(sun: SolarPosition) -> (view: CameraView)
    requires
        sun.wf(),
    ensures
        view == tracked_view(sun),
{
    CameraView {
        yaw: if sun.azimuth <= HALF_TURN {
            sun.azimuth
        } else {
            sun.azimuth - FULL_TURN
        },
        pitch: camera_pitch(sun.elevation),
    }
}

/// A pinhole camera with a zoom lens.
#[derive(Clone, Copy, Debug, PartialEq, Eq, Structural)]
pub struct Perspective {
    /// The focal length in nanometres.
    pub focal_length_nm: u64,
    /// The view set by hand; without one the camera follows the sun.
    pub manual_view: Option<CameraView>,
}

impl Default for Perspective {
    fn default() -> (camera: Perspective)
        ensures
            camera == Perspective::initial(),
            camera.wf(),
    {
        Perspective { focal_length_nm: DEFAULT_FOCAL_LENGTH_NM, manual_view: None }
    }
}

impl Perspective {
    /// A camera with a normal lens that follows the sun.
    pub open spec fn initial() -> Perspective {
        Perspective { focal_length_nm: DEFAULT_FOCAL_LENGTH_NM, manual_view: None }
    }

    /// The focal length lies within the lens, and a view set by hand is a proper one.
    pub open spec fn wf(self) -> bool {
        &&& MIN_FOCAL_LENGTH_NM <= self.focal_length_nm <= MAX_FOCAL_LENGTH_NM
        &&& self.manual_view matches Some(view) ==> view.wf()
    }

    /// Where the camera looks while the sun stands at `sun`.
    pub open spec fn view(self, sun: SolarPosition) -> CameraView {
        match self.manual_view {
            Some(view) => view,
            None => tracked_view(sun),
        }
    }

    /// The camera after a key press.
    pub open spec fn after_control(
        self,
        control: CameraControl,
        sun: SolarPosition,
    ) -> Perspective {
        Perspective { manual_view: Some(self.view(sun).turned(control)), ..self }
    }

    /// The camera as it follows the sun again.
    pub open spec fn after_reset(self) -> Perspective {
        Perspective { manual_view: None, ..self }
    }

    /// The camera after the wheel has been turned by `lines`, which zooms by `zoom`.
    pub open spec fn after_scroll(self, lines: int, zoom: u64) -> Perspective {
        if lines == 0 {
            self
        } else {
            Perspective {
                focal_length_nm: zoomed(
                    self.focal_length_nm as int,
                    directed(lines, zoom) as int,
                ) as u64,
                ..self
            }
        }
    }

    /// What the shader needs to know of the camera.
    pub fn camera_uniform(&self, sun: SolarPosition) -> (camera: CameraUniform)
        requires
            self.wf(),
            sun.wf(),
        ensures
            camera == (CameraUniform {
                yaw: self.view(sun).yaw,
                pitch: self.view(sun).pitch,
                half_height: HALF_SENSOR_HEIGHT_NM,
                distance: self.focal_length_nm,
            }),
    {
        let view = match self.manual_view {
            Some(view) => view,
            None => track(sun),
        };
        CameraUniform {
            yaw: view.yaw,
            pitch: view.pitch,
            half_height: HALF_SENSOR_HEIGHT_NM,
            distance: self.focal_length_nm,
        }
    }

    /// Zooms by the factor `zoom`, in billionths, that belongs to the wheel movement; tells
    /// whether the wheel moved vertically at all. Upwards zooms in and downwards zooms out: a
    /// factor on the wrong side of one counts as one.
    pub fn handle_scroll(&mut self, delta: MouseScrollDelta, zoom: u64) -> (zooms: bool)
        requires
            old(self).wf(),
        ensures
            zooms == (delta.spec_lines() != 0),
            *final(self) == old(self).after_scroll(delta.spec_lines(), zoom),
            delta.spec_lines() > 0 ==> final(self).focal_length_nm >= old(self).focal_length_nm,
            delta.spec_lines() < 0 ==> final(self).focal_length_nm <= old(self).focal_length_nm,
            final(self).wf(),
    {
        let lines: i128 = delta.lines();
        if lines == 0 {
            return false;
        }
        let zoom: u64 = if (lines > 0 && zoom < ZOOM_UNIT) || (lines < 0 && zoom > ZOOM_UNIT) {
            ZOOM_UNIT
        } else {
            zoom
        };
        proof {
            law_zoom_follows_the_factor(self.focal_length_nm as int, zoom as int);
        }
        let focal: u128 = self.focal_length_nm as u128;
        assert(0 <= focal * zoom <= 300_000_000 * 0xffff_ffff_ffff_ffff) by (nonlinear_arith)
            requires
                0 <= focal <= 300_000_000,
                0 <= zoom <= 0xffff_ffff_ffff_ffff,
        ;
        let scaled: u128 = (focal * (zoom as u128) + (ZOOM_UNIT as u128) / 2) / (
        ZOOM_UNIT as u128);
        self.focal_length_nm = if scaled < MIN_FOCAL_LENGTH_NM as u128 {
            MIN_FOCAL_LENGTH_NM
        } else if scaled > MAX_FOCAL_LENGTH_NM as u128 {
            MAX_FOCAL_LENGTH_NM
        } else {
            scaled as u64
        };
        true
    }

    /// The focal length in nanometres.
    pub fn focal_length_nm(&self) -> (focal_length_nm: u64)
        ensures
            focal_length_nm == self.focal_length_nm,
    {
        self.focal_length_nm
    }

    /// Turns the camera one step. The first turn starts where the sun stands, and the camera
    /// follows the sun no longer.
    pub fn adjust_view(&mut self, control: CameraControl, sun: SolarPosition)
        requires
            old(self).wf(),
            sun.wf(),
        ensures
            *final(self) == old(self).after_control(control, sun),
            final(self).wf(),
    {
        let view = match self.manual_view {
            Some(view) => view,
            None => track(sun),
        };
        let mut yaw: i64 = view.yaw;
        let mut pitch: i64 = view.pitch;
        match control {
            CameraControl::PitchUp => {
                pitch = pitch + ROTATION_STEP;
            },
            CameraControl::PitchDown => {
                pitch = pitch - ROTATION_STEP;
            },
            CameraControl::YawLeft => {
                yaw = yaw - ROTATION_STEP;
            },
            CameraControl::YawRight => {
                yaw = yaw + ROTATION_STEP;
            },
        }
        if yaw < 0 {
            yaw = yaw + FULL_TURN;
        } else if yaw >= FULL_TURN {
            yaw = yaw - FULL_TURN;
        }
        if pitch < 0 {
            pitch = 0;
        } else if pitch > RIGHT_ANGLE {
            pitch = RIGHT_ANGLE;
        }
        self.manual_view = Some(CameraView { yaw, pitch });
    }

    /// Lets the camera follow the sun again.
    pub fn reset_view(&mut self)
        ensures
            *final(self) == old(self).after_reset(),
            old(self).wf() ==> final(self).wf(),
    {
        self.manual_view = None;
    }

    /// Whether the camera follows the sun.
    pub fn is_tracking_sun(&self) -> (tracking: bool)
        ensures
            tracking == self.manual_view is None,
    {
        self.manual_view.is_none()
    }

    /// The pitch set by hand.
    pub fn manual_pitch(&self) -> (pitch: Option<i64>)
        ensures
            pitch == match self.manual_view {
                Some(view) => Some(view.pitch),
                None => None,
            },
    {
        match self.manual_view {
            Some(view) => Some(view.pitch),
            None => None,
        }
    }
}

/// A camera that follows the sun looks at the sun, or at the horizon below which the sun has set.
pub proof fn law_tracking_stops_at_the_horizon(sun: SolarPosition)
    requires
        sun.wf(),
    ensures
        0 <= tracked_view(sun).pitch <= RIGHT_ANGLE,
        sun.elevation >= 0 ==> tracked_view(sun).pitch == sun.elevation,
        sun.elevation <= 0 ==> tracked_view(sun).pitch == 0,
        tracked_view(sun).yaw as int % FULL_TURN as int == sun.azimuth,
{
}

/// The first key press starts at the sun, whatever the camera did before; resetting forgets every
/// key press and keeps the zoom.
pub proof fn law_reset_forgets_key_presses(
    camera: Perspective,
    control: CameraControl,
    pressed_under: SolarPosition,
    sun: SolarPosition,
)
    ensures
        camera.after_reset().view(sun) == tracked_view(sun),
        camera.after_control(control, pressed_under).after_reset() == camera.after_reset(),
        camera.after_reset().after_control(control, sun).view(sun) == tracked_view(sun).turned(
            control,
        ),
        camera.after_reset().focal_length_nm == camera.focal_length_nm,
{
}

/// Once steered by hand, the camera pays no attention to the sun.
pub proof fn law_manual_view_ignores_the_sun(
    camera: Perspective,
    control: CameraControl,
    first: SolarPosition,
    second: SolarPosition,
)
    requires
        camera.manual_view is Some,
    ensures
        camera.view(first) == camera.view(second),
        camera.after_control(control, first) == camera.after_control(control, second),
{
}

/// Turning left and turning right undo each other, whole turn or not.
pub proof fn law_yaw_steps_cancel(view: CameraView)
    requires
        view.wf(),
    ensures
        view.turned(CameraControl::YawLeft).turned(CameraControl::YawRight) == view,
        view.turned(CameraControl::YawRight).turned(CameraControl::YawLeft) == view,
{
}

/// Pitching up and down undo each other unless the zenith or the horizon stopped the first step.
pub proof fn law_pitch_steps_cancel(view: CameraView)
    requires
        view.wf(),
    ensures
        view.pitch + ROTATION_STEP <= RIGHT_ANGLE ==> view.turned(CameraControl::PitchUp).turned(
            CameraControl::PitchDown,
        ) == view,
        view.pitch >= ROTATION_STEP ==> view.turned(CameraControl::PitchDown).turned(
            CameraControl::PitchUp,
        ) == view,
{
}

/// After any number of upward steps the pitch is what the steps add up to, or the zenith.
pub proof fn law_pitch_climbs_to_the_zenith(view: CameraView, steps: nat)
    requires
        view.wf(),
    ensures
        view.turned_by(CameraControl::PitchUp, steps) == (CameraView {
            yaw: view.yaw,
            pitch: (if view.pitch + steps * ROTATION_STEP > RIGHT_ANGLE {
                RIGHT_ANGLE as int
            } else {
                view.pitch + steps * ROTATION_STEP
            }) as i64,
        }),
        steps >= 90 ==> view.turned_by(CameraControl::PitchUp, steps).pitch == RIGHT_ANGLE,
    decreases steps,
{
    if steps > 0 {
        law_pitch_climbs_to_the_zenith(view, (steps - 1) as nat);
    }
}

/// After any number of downward steps the pitch is what is left of it, or the horizon.
pub proof fn law_pitch_sinks_to_the_horizon(view: CameraView, steps: nat)
    requires
        view.wf(),
    ensures
        view.turned_by(CameraControl::PitchDown, steps) == (CameraView {
            yaw: view.yaw,
            pitch: (if view.pitch - steps * ROTATION_STEP < 0 {
                0
            } else {
                view.pitch - steps * ROTATION_STEP
            }) as i64,
        }),
        steps >= 90 ==> view.turned_by(CameraControl::PitchDown, steps).pitch == 0,
    decreases steps,
{
    if steps > 0 {
        law_pitch_sinks_to_the_horizon(view, (steps - 1) as nat);
    }
}

/// A step to the right can be taken before or after whole turns have been left out.
proof fn lemma_next_yaw(yaw: int)
    ensures
        0 <= yaw % FULL_TURN as int,
        (yaw % FULL_TURN as int) < FULL_TURN,
        (yaw % FULL_TURN as int + ROTATION_STEP) % FULL_TURN as int == (yaw + ROTATION_STEP)
            % FULL_TURN as int,
        0 <= (yaw + ROTATION_STEP) % FULL_TURN as int,
        ((yaw + ROTATION_STEP) % FULL_TURN as int) < FULL_TURN,
{
    vstd::arithmetic::div_mod::lemma_mod_bound(yaw, FULL_TURN as int);
    vstd::arithmetic::div_mod::lemma_mod_bound(yaw + ROTATION_STEP, FULL_TURN as int);
    vstd::arithmetic::div_mod::lemma_add_mod_noop_right(
        ROTATION_STEP as int,
        yaw,
        FULL_TURN as int,
    );
}

/// Turning right adds up, and comes round with every full turn.
pub proof fn law_yaw_comes_round(view: CameraView, steps: nat)
    requires
        view.wf(),
    ensures
        view.turned_by(CameraControl::YawRight, steps) == (CameraView {
            yaw: ((view.yaw + steps * ROTATION_STEP) % FULL_TURN as int) as i64,
            pitch: view.pitch,
        }),
        steps % 360 == 0 ==> view.turned_by(CameraControl::YawRight, steps) == view,
    decreases steps,
{
    if steps > 0 {
        let fewer = (steps - 1) as nat;
        law_yaw_comes_round(view, fewer);
        lemma_next_yaw(view.yaw + fewer * ROTATION_STEP);
        assert(steps * ROTATION_STEP == fewer * ROTATION_STEP + ROTATION_STEP) by (nonlinear_arith)
            requires
                steps == fewer + 1,
        ;
    } else {
        vstd::arithmetic::div_mod::lemma_small_mod(view.yaw as nat, FULL_TURN as nat);
    }
    if steps % 360 == 0 {
        let turns = steps as int / 360;
        vstd::arithmetic::div_mod::lemma_fundamental_div_mod(steps as int, 360);
        vstd::arithmetic::div_mod::lemma_mod_multiples_vanish(
            turns,
            view.yaw as int,
            FULL_TURN as int,
        );
        vstd::arithmetic::div_mod::lemma_small_mod(view.yaw as nat, FULL_TURN as nat);
        assert(steps * ROTATION_STEP == FULL_TURN * turns) by (nonlinear_arith)
            requires
                steps == 360 * turns,
                FULL_TURN == 360 * ROTATION_STEP,
        ;
    }
}

/// A zoom keeps the focal length within the lens; a factor above one never shortens it, one below
/// never lengthens it, and a step of at least a tenth changes it unless the lens is at its end.
pub proof fn law_zoom_follows_the_factor(focal_length_nm: int, zoom: int)
    requires
        MIN_FOCAL_LENGTH_NM <= focal_length_nm <= MAX_FOCAL_LENGTH_NM,
        zoom >= 0,
    ensures
        MIN_FOCAL_LENGTH_NM <= zoomed(focal_length_nm, zoom) <= MAX_FOCAL_LENGTH_NM,
        zoom == ZOOM_UNIT ==> zoomed(focal_length_nm, zoom) == focal_length_nm,
        zoom >= ZOOM_UNIT ==> zoomed(focal_length_nm, zoom) >= focal_length_nm,
        zoom <= ZOOM_UNIT ==> zoomed(focal_length_nm, zoom) <= focal_length_nm,
        10 * zoom >= 11 * ZOOM_UNIT && focal_length_nm < MAX_FOCAL_LENGTH_NM ==> zoomed(
            focal_length_nm,
            zoom,
        ) > focal_length_nm,
        11 * zoom <= 10 * ZOOM_UNIT && focal_length_nm > MIN_FOCAL_LENGTH_NM ==> zoomed(
            focal_length_nm,
            zoom,
        ) < focal_length_nm,
{
    let product = focal_length_nm * zoom;
    if zoom >= ZOOM_UNIT {
        assert(product >= focal_length_nm * 1_000_000_000) by (nonlinear_arith)
            requires
                product == focal_length_nm * zoom,
                focal_length_nm >= 0,
                zoom >= 1_000_000_000,
        ;
    }
    if zoom <= ZOOM_UNIT {
        assert(product <= focal_length_nm * 1_000_000_000) by (nonlinear_arith)
            requires
                product == focal_length_nm * zoom,
                focal_length_nm >= 0,
                zoom <= 1_000_000_000,
        ;
    }
    if 10 * zoom >= 11 * ZOOM_UNIT {
        assert(10 * product >= focal_length_nm * 11_000_000_000) by (nonlinear_arith)
            requires
                product == focal_length_nm * zoom,
                focal_length_nm >= 0,
                10 * zoom >= 11_000_000_000,
        ;
    }
    if 11 * zoom <= 10 * ZOOM_UNIT {
        assert(11 * product <= focal_length_nm * 10_000_000_000) by (nonlinear_arith)
            requires
                product == focal_length_nm * zoom,
                focal_length_nm >= 0,
                11 * zoom <= 10_000_000_000,
        ;
    }
}

/// The wheel zooms in upwards and out downwards, whatever the factor, and stays within the lens;
/// without a vertical movement nothing changes, and never does the view. By a factor that is at
/// least a tenth off one the lens moves unless it is at its end.
pub proof fn law_zoom_follows_the_wheel(camera: Perspective, lines: int, zoom: u64)
    requires
        camera.wf(),
    ensures
        ({
            let after = camera.after_scroll(lines, zoom);
            &&& after.wf()
            &&& after.manual_view == camera.manual_view
            &&& lines == 0 ==> after == camera
            &&& lines > 0 ==> after.focal_length_nm >= camera.focal_length_nm
            &&& lines < 0 ==> after.focal_length_nm <= camera.focal_length_nm
            &&& lines > 0 && 10 * zoom >= 11 * ZOOM_UNIT && camera.focal_length_nm
                < MAX_FOCAL_LENGTH_NM ==> after.focal_length_nm > camera.focal_length_nm
            &&& lines < 0 && 11 * zoom <= 10 * ZOOM_UNIT && camera.focal_length_nm
                > MIN_FOCAL_LENGTH_NM ==> after.focal_length_nm < camera.focal_length_nm
        }),
{
    law_zoom_follows_the_factor(
        camera.focal_length_nm as int,
        directed(lines, zoom) as int,
    );
}

/// Scrolling up and then further down leaves a shorter focal length than before: it does as soon
/// as the two factors together are below one by a twentieth.
pub proof fn law_scrolling_down_outweighs_scrolling_up(
    camera: Perspective,
    up: int,
    zoom_in: u64,
    down: int,
    zoom_out: u64,
)
    requires
        camera.wf(),
        camera.focal_length_nm > MIN_FOCAL_LENGTH_NM,
        up > 0,
        down < 0,
        zoom_in >= ZOOM_UNIT,
        20 * (zoom_in * zoom_out) <= 19 * (ZOOM_UNIT * ZOOM_UNIT),
    ensures
        camera.after_scroll(up, zoom_in).after_scroll(down, zoom_out).focal_length_nm
            < camera.focal_length_nm,
{
    let focal = camera.focal_length_nm as int;
    let unit = ZOOM_UNIT as int;
    let into = zoom_in as int;
    let out = zoom_out as int;
    assert(out < unit) by (nonlinear_arith)
        requires
            20 * (into * out) <= 19 * (unit * unit),
            into >= unit,
            unit == 1_000_000_000,
            out >= 0,
    ;
    law_zoom_follows_the_factor(focal, into);
    let longer = zoomed(focal, into);
    law_zoom_follows_the_factor(longer, out);
    assert(longer * unit <= focal * into + unit);
    assert((longer * out) * unit <= (focal * into + unit) * out) by (nonlinear_arith)
        requires
            longer * unit <= focal * into + unit,
            out >= 0,
    ;
    assert((focal * into + unit) * out == focal * (into * out) + unit * out) by (nonlinear_arith);
    assert(20 * (focal * (into * out)) <= 19 * (focal * (unit * unit))) by (nonlinear_arith)
        requires
            20 * (into * out) <= 19 * (unit * unit),
            focal >= 0,
    ;
    assert(unit * out <= unit * unit) by (nonlinear_arith)
        requires
            out <= unit,
            unit >= 0,
    ;
    assert(unit * unit == 1_000_000_000_000_000_000);
    assert(focal * (unit * unit) == focal * 1_000_000_000_000_000_000);
}

/// Within the lens the new focal length is the old one times the factor, to the nearest nanometre;
/// only a product outside the lens gives an end of it. A factor that points the other way than the
/// wheel changes nothing.
pub proof fn law_zoom_multiplies_the_focal_length(camera: Perspective, lines: int, zoom: u64)
    requires
        12_000_000 <= camera.focal_length_nm <= 300_000_000,
        lines != 0,
    ensures
        ({
            let after = camera.after_scroll(lines, zoom).focal_length_nm as int;
            let product = camera.focal_length_nm * zoom;
            let unit = 1_000_000_000int;
            let agrees = if lines > 0 {
                zoom >= unit
            } else {
                zoom <= unit
            };
            &&& agrees && 12_000_000 * unit <= product <= 300_000_000 * unit ==> -unit <= 2 * (
            unit * after - product) <= unit
            &&& agrees && product < 12_000_000 * unit ==> after == 12_000_000
            &&& agrees && product > 300_000_000 * unit ==> after == 300_000_000
            &&& !agrees ==> after == camera.focal_length_nm
        }),
{
    let focal = camera.focal_length_nm as int;
    let unit = 1_000_000_000int;
    let used = directed(lines, zoom) as int;
    let product = focal * used;
    if used == unit {
        assert(product == focal * 1_000_000_000) by (nonlinear_arith)
            requires
                product == focal * used,
                used == 1_000_000_000,
        ;
    }
    let scaled = (product + 500_000_000) / unit;
    assert(unit * scaled <= product + 500_000_000 < unit * scaled + unit);
}

/// Two movements that go the same way zoom further than the first of them alone.
pub proof fn law_further_scrolling_zooms_further(
    camera: Perspective,
    lines: int,
    zoom: u64,
    more: int,
    more_zoom: u64,
)
    requires
        12_000_000 <= camera.focal_length_nm <= 300_000_000,
    ensures
        ({
            let once = camera.after_scroll(lines, zoom);
            let twice = once.after_scroll(more, more_zoom);
            &&& lines > 0 && more > 0 ==> camera.focal_length_nm <= once.focal_length_nm
                <= twice.focal_length_nm
            &&& lines < 0 && more < 0 ==> camera.focal_length_nm >= once.focal_length_nm
                >= twice.focal_length_nm
        }),
{
    let unit = ZOOM_UNIT as int;
    law_zoom_follows_the_factor(camera.focal_length_nm as int, directed(lines, zoom) as int);
    let once = camera.after_scroll(lines, zoom);
    law_zoom_follows_the_factor(once.focal_length_nm as int, directed(more, more_zoom) as int);
}

/// A larger factor never gives a shorter focal length, and a longer lens never ends up shorter than
/// a shorter one that is zoomed alike.
pub proof fn law_zoom_keeps_the_order(
    camera: Perspective,
    longer: Perspective,
    lines: int,
    zoom: u64,
    larger_zoom: u64,
)
    requires
        camera.focal_length_nm <= longer.focal_length_nm,
        camera.manual_view == longer.manual_view,
        12_000_000 <= camera.focal_length_nm,
        longer.focal_length_nm <= 300_000_000,
        zoom <= larger_zoom,
    ensures
        camera.after_scroll(lines, zoom).focal_length_nm <= longer.after_scroll(
            lines,
            larger_zoom,
        ).focal_length_nm,
{
    let small = directed(lines, zoom) as int;
    let large = directed(lines, larger_zoom) as int;
    let focal = camera.focal_length_nm as int;
    let other = longer.focal_length_nm as int;
    assert(focal * small <= other * large) by (nonlinear_arith)
        requires
            0 <= focal <= other,
            0 <= small <= large,
    ;
}

/// A key press turns the camera by one degree: left and right round the compass, up and down until
/// the zenith or the horizon stops it. It does so from wherever the camera looks.
pub proof fn law_a_key_press_turns_one_degree(view: CameraView, control: CameraControl)
    requires
        0 <= view.pitch <= 90_000_000_000,
        -180_000_000_000 <= view.yaw < 360_000_000_000,
    ensures
        ({
            let turned = view.turned(control);
            let sideways = match control {
                CameraControl::YawLeft => -1_000_000_000int,
                CameraControl::YawRight => 1_000_000_000,
                _ => 0,
            };
            let upwards = match control {
                CameraControl::PitchUp => 1_000_000_000int,
                CameraControl::PitchDown => -1_000_000_000,
                _ => 0,
            };
            let moved = turned.yaw - (view.yaw + sideways);
            &&& 0 <= turned.yaw < 360_000_000_000
            &&& moved == 0 || moved == 360_000_000_000 || moved == -360_000_000_000
            &&& 0 <= turned.pitch <= 90_000_000_000
            &&& 0 <= view.pitch + upwards <= 90_000_000_000 ==> turned.pitch == view.pitch
                + upwards
            &&& view.pitch + upwards < 0 ==> turned.pitch == 0
            &&& view.pitch + upwards > 90_000_000_000 ==> turned.pitch == 90_000_000_000
        }),
{
}

/// A camera that follows the sun turns to the sun's azimuth, counted from half a turn left of north
/// to half a turn right of it, and to its elevation, or to the horizon under a sun that has set.
pub proof fn law_tracking_faces_the_sun(camera: Perspective, sun: SolarPosition)
    requires
        camera.manual_view is None,
        -90_000_000_000 <= sun.elevation <= 90_000_000_000,
        0 <= sun.azimuth < 360_000_000_000,
    ensures
        ({
            let view = camera.view(sun);
            &&& -180_000_000_000 < view.yaw <= 180_000_000_000
            &&& view.yaw == sun.azimuth || view.yaw == sun.azimuth - 360_000_000_000
            &&& sun.elevation >= 0 ==> view.pitch == sun.elevation
            &&& sun.elevation < 0 ==> view.pitch == 0
        }),
{
}

/// Steering a camera sets where it looks and keeps its lens: it then looks one step from where it
/// looked before, whether by hand or at the sun. Following the sun again keeps the lens too, and a
/// zoom keeps the view.
pub proof fn law_steering_keeps_the_lens(
    camera: Perspective,
    control: CameraControl,
    sun: SolarPosition,
    other_sun: SolarPosition,
    lines: int,
    zoom: u64,
)
    ensures
        ({
            let steered = camera.after_control(control, sun);
            &&& steered.manual_view is Some
            &&& steered.view(other_sun) == camera.view(sun).turned(control)
            &&& steered.focal_length_nm == camera.focal_length_nm
            &&& camera.after_reset().manual_view is None
            &&& camera.after_reset().focal_length_nm == camera.focal_length_nm
            &&& camera.after_scroll(lines, zoom).view(sun) == camera.view(sun)
            &&& camera.manual_view matches Some(view) ==> camera.view(sun) == view
        }),
{
}

} // verus!
