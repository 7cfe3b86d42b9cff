//! The part of a renderer that decides: what is shown, how it is steered, and what becomes of a
//! frame.

use vstd::prelude::*;
use vstd::string::*;

use crate::angle::SolarPosition;
use crate::clock::{longitude_local_time, LocalTime};
use crate::config::{AppConfig, LocationConfig, RenderingConfig};
use crate::degrees::Degrees;
use crate::geometry::PhysicalSize;
use crate::meridian::Longitude;
use crate::output::OutputMode;
use crate::projection::{
    CameraControl, CameraUniform, FrameViewport, MouseScrollDelta, Projection,
};
use crate::time::Instant;
use crate::time_control::TimeControl;

verus! {

/// Where the observer stands.
#[derive(Clone, Copy, Debug, PartialEq, Eq, Structural)]
pub struct Location {
    pub latitude: Degrees,
    pub longitude: Longitude,
}

impl Location {
    /// The place that is configured; without a longitude it lies on the standard meridian of the
    /// system's time zone.
    pub open spec fn of_config(config: LocationConfig, offset_seconds: i32) -> Location {
        Location {
            latitude: config.latitude,
            longitude: match config.longitude {
                Some(longitude) => Longitude::Configured(longitude),
                None => Longitude::StandardMeridian { offset_seconds },
            },
        }
    }

    /// The place that is configured, in a system whose clock is `offset_seconds` ahead of UTC.
    pub fn from_config(config: LocationConfig, offset_seconds: i32) -> (location: Location)
        ensures
            location == Location::of_config(config, offset_seconds),
    {
        Location {
            latitude: config.latitude,
            longitude: match config.longitude {
                Some(longitude) => Longitude::Configured(longitude),
                None => Longitude::StandardMeridian { offset_seconds },
            },
        }
    }
}

/// The keys that mean something.
#[derive(Clone, Copy, Debug, PartialEq, Eq, Structural)]
pub enum KeyCode {
    ArrowUp,
    ArrowDown,
    ArrowLeft,
    ArrowRight,
    KeyR,
    Comma,
    Period,
    KeyT,
    Escape,
    Other,
}

impl KeyCode {
    /// How the key turns the camera.
    pub open spec fn turns(self) -> Option<CameraControl> {
        match self {
            KeyCode::ArrowUp => Some(CameraControl::PitchUp),
            KeyCode::ArrowDown => Some(CameraControl::PitchDown),
            KeyCode::ArrowLeft => Some(CameraControl::YawLeft),
            KeyCode::ArrowRight => Some(CameraControl::YawRight),
            _ => None,
        }
    }

    /// By how many minutes the key moves the shown time.
    pub open spec fn moves_minutes(self) -> Option<i64> {
        match self {
            KeyCode::Comma => Some(-1i64),
            KeyCode::Period => Some(1),
            _ => None,
        }
    }

    /// By how many minutes the key moves the shown time.
    pub fn minutes(self) -> (minutes: Option<i64>)
        ensures
            minutes == self.moves_minutes(),
    {
        match self {
            KeyCode::Comma => Some(-1),
            KeyCode::Period => Some(1),
            _ => None,
        }
    }

    /// How the key turns the camera.
    pub fn camera_control(self) -> (control: Option<CameraControl>)
        ensures
            control == self.turns(),
    {
        match self {
            KeyCode::ArrowUp => Some(CameraControl::PitchUp),
            KeyCode::ArrowDown => Some(CameraControl::PitchDown),
            KeyCode::ArrowLeft => Some(CameraControl::YawLeft),
            KeyCode::ArrowRight => Some(CameraControl::YawRight),
            _ => None,
        }
    }
}

/// What the surface hands out when a frame is asked for.
#[derive(Clone, Copy, Debug, PartialEq, Eq, Structural)]
pub enum SurfaceTexture {
    Success,
    Suboptimal,
    Timeout,
    Occluded,
    Outdated,
    Lost,
    Validation,
}

/// What became of a frame.
#[derive(Clone, Copy, Debug, PartialEq, Eq, Structural)]
pub enum RenderStatus {
    Presented,
    Reconfigure,
    Skip,
    Fatal,
}

impl SurfaceTexture {
    /// There is a texture to draw into.
    pub open spec fn drawable(self) -> bool {
        self is Success || self is Suboptimal
    }

    /// What becomes of the frame: a texture that does not fit the surface any more is still
    /// presented, and the surface is configured again after it.
    pub open spec fn outcome(self) -> RenderStatus {
        match self {
            SurfaceTexture::Success => RenderStatus::Presented,
            SurfaceTexture::Suboptimal => RenderStatus::Reconfigure,
            SurfaceTexture::Timeout => RenderStatus::Skip,
            SurfaceTexture::Occluded => RenderStatus::Skip,
            SurfaceTexture::Outdated => RenderStatus::Reconfigure,
            SurfaceTexture::Lost => RenderStatus::Fatal,
            SurfaceTexture::Validation => RenderStatus::Fatal,
        }
    }

    /// Whether a frame is drawn and presented.
    pub fn is_drawable(self) -> (drawable: bool)
        ensures
            drawable == self.drawable(),
    {
        match self {
            SurfaceTexture::Success => true,
            SurfaceTexture::Suboptimal => true,
            _ => false,
        }
    }

    /// What becomes of the frame, once it has been presented if there is one.
    pub fn status(self) -> (status: RenderStatus)
        ensures
            status == self.outcome(),
    {
        match self {
            SurfaceTexture::Success => RenderStatus::Presented,
            SurfaceTexture::Suboptimal => RenderStatus::Reconfigure,
            SurfaceTexture::Timeout => RenderStatus::Skip,
            SurfaceTexture::Occluded => RenderStatus::Skip,
            SurfaceTexture::Outdated => RenderStatus::Reconfigure,
            SurfaceTexture::Lost => RenderStatus::Fatal,
            SurfaceTexture::Validation => RenderStatus::Fatal,
        }
    }
}

/// What one renderer shows.
#[derive(Clone, Copy, Debug, PartialEq, Eq, Structural)]
pub struct RendererState {
    pub location: Location,
    pub output_mode: OutputMode,
    pub projection: Projection,
    pub time_control: TimeControl,
    /// The size that the surface is configured with.
    pub surface_size: PhysicalSize,
}

/// The title of a window.
pub open spec fn title_text(
    output: Seq<char>,
    projection: Seq<char>,
    time: Seq<char>,
    elevation: Seq<char>,
    azimuth: Seq<char>,
) -> Seq<char> {
    "Scatter ["@ + output + " | "@ + projection + "] — "@ + time + " LMT  |  sun "@ + elevation
        + "° high, azimuth "@ + azimuth + "°"@
}

/// The title of a window.
pub fn window_title(
    output: &str,
    projection: &str,
    time: &str,
    elevation: &str,
    azimuth: &str,
) -> (title: String)
    ensures
        title@ == title_text(output@, projection@, time@, elevation@, azimuth@),
{
    let mut title = String::new();
    title.append("Scatter [");
    title.append(output);
    title.append(" | ");
    title.append(projection);
    title.append("] — ");
    title.append(time);
    title.append(" LMT  |  sun ");
    title.append(elevation);
    title.append("° high, azimuth ");
    title.append(azimuth);
    title.append("°");
    assert(title@ == title_text(output@, projection@, time@, elevation@, azimuth@));
    title
}

impl RendererState {
    /// All parts are proper ones, and the surface has a size.
    pub open spec fn wf(self) -> bool {
        &&& self.output_mode.wf()
        &&& self.projection.wf()
        &&& self.surface_size.width > 0
        &&& self.surface_size.height > 0
    }

    /// A key press at `now` does not take the offset of the shown time out of its range.
    pub open spec fn accepts_key(self, key: KeyCode, now: Instant) -> bool {
        key.moves_minutes() matches Some(minutes) ==> (self.time_control.debounced(now)
            || i64::MIN <= self.time_control.offset_minutes + minutes <= i64::MAX)
    }

    /// A key press at `now` changes what is shown.
    pub open spec fn key_changes(self, key: KeyCode, now: Instant) -> bool {
        if key.turns() is Some || key is KeyR {
            self.projection is Perspective
        } else if key.moves_minutes() is Some {
            !self.time_control.debounced(now)
        } else {
            key is KeyT
        }
    }

    /// The state after a key press at `now`, while the sun stands at `sun`.
    pub open spec fn after_key(
        self,
        key: KeyCode,
        now: Instant,
        sun: SolarPosition,
    ) -> RendererState {
        match (key.turns(), key.moves_minutes(), key) {
            (Some(control), _, _) => RendererState {
                projection: self.projection.after_control(control, sun),
                ..self
            },
            (None, Some(minutes), _) => RendererState {
                time_control: self.time_control.after_adjust(minutes, now),
                ..self
            },
            (None, None, KeyCode::KeyR) => RendererState {
                projection: self.projection.after_reset(),
                ..self
            },
            (None, None, KeyCode::KeyT) => RendererState {
                time_control: TimeControl::initial(),
                ..self
            },
            _ => self,
        }
    }

    /// The state after the window has got another size; an empty size is ignored.
    pub open spec fn after_resize(self, size: PhysicalSize) -> RendererState {
        if size.width == 0 || size.height == 0 {
            self
        } else {
            RendererState { surface_size: size, ..self }
        }
    }

    /// The moment that is shown when the clock reads `utc_millis`, in milliseconds since the Unix
    /// epoch.
    pub open spec fn shown_millis(self, utc_millis: i64) -> int {
        utc_millis + 60_000 * self.time_control.offset_minutes
    }

    /// A renderer in its first state.
    pub fn new(
        location_config: LocationConfig,
        system_offset_seconds: i32,
        rendering: RenderingConfig,
        output_mode: OutputMode,
        size: PhysicalSize,
    ) -> (state: RendererState)
        requires
            output_mode.wf(),
        ensures
            state == (RendererState {
                location: Location::of_config(location_config, system_offset_seconds),
                output_mode,
                projection: Projection::of_kind(rendering.projection),
                time_control: TimeControl::initial(),
                surface_size: size.nonempty(),
            }),
            state.wf(),
    {
        RendererState {
            location: Location::from_config(location_config, system_offset_seconds),
            output_mode,
            projection: Projection::new(rendering.projection),
            time_control: TimeControl::default(),
            surface_size: size.at_least_one(),
        }
    }

    /// The local mean time that is shown when the clock reads `utc_millis`. `None` where that
    /// moment, or the one of the clock, lies outside the supported calendar, or where the clock of
    /// the longitude would be a day or more away from UTC.
    pub fn current_time(&self, utc_millis: i64) -> (time: Option<LocalTime>)
        ensures
            time == if crate::clock::millis_in_calendar(utc_millis as int)
                && crate::clock::offset_in_range(
                self.location.longitude.spec_clock_offset() as int,
            ) && crate::clock::millis_in_calendar(self.shown_millis(utc_millis)) {
                Some(
                    LocalTime {
                        utc_millis: self.shown_millis(utc_millis) as i64,
                        offset_seconds: self.location.longitude.spec_clock_offset(),
                    },
                )
            } else {
                None
            },
            time matches Some(local) ==> local.wf(),
            time matches Some(local) ==> local.utc_millis - utc_millis == 60_000
                * self.time_control.offset_minutes,
    {
        match longitude_local_time(utc_millis, self.location.longitude) {
            None => None,
            Some(local) => local.plus_minutes(self.time_control.offset_minutes()),
        }
    }

    /// The part of a window of `size` that shows the sky.
    pub fn viewport(&self, size: PhysicalSize) -> (viewport: FrameViewport)
        ensures
            viewport == self.projection.spec_viewport(size),
            viewport.wf(),
    {
        self.projection.viewport(size)
    }

    /// What the shaders need to know of the camera.
    pub fn camera_uniform(&self, sun: SolarPosition) -> (camera: CameraUniform)
        requires
            self.wf(),
            sun.wf(),
        ensures
            camera == self.projection.spec_camera(sun),
            camera.distance > 0,
    {
        self.projection.camera_uniform(sun)
    }

    /// The title of the window at `time`, with the sun's angles as they are to be written.
    pub fn title(&self, time: LocalTime, elevation: &str, azimuth: &str) -> (title: String)
        requires
            self.wf(),
            time.wf(),
        ensures
            title@ == title_text(
                self.output_mode.spec_label(),
                self.projection.spec_label(),
                time.text(),
                elevation@,
                azimuth@,
            ),
    {
        let projection = self.projection.label();
        let shown = time.format();
        window_title(
            self.output_mode.label(),
            projection.as_str(),
            shown.as_str(),
            elevation,
            azimuth,
        )
    }

    /// Zooms with the wheel; tells whether to draw anew.
    pub fn handle_scroll(&mut self, delta: MouseScrollDelta, zoom: u64) -> (changed: bool)
        requires
            old(self).wf(),
        ensures
            changed == (old(self).projection is Perspective && delta.spec_lines() != 0),
            *final(self) == (RendererState {
                projection: old(self).projection.after_scroll(delta.spec_lines(), zoom),
                ..*old(self)
            }),
            final(self).wf(),
    {
        self.projection.handle_scroll(delta, zoom)
    }

    /// Reacts to a key; tells whether to draw anew.
    pub fn handle_key(&mut self, key: KeyCode, now: Instant, sun: SolarPosition) -> (changed: bool)
        requires
            old(self).wf(),
            sun.wf(),
            old(self).accepts_key(key, now),
        ensures
            changed == old(self).key_changes(key, now),
            *final(self) == old(self).after_key(key, now, sun),
            final(self).wf(),
    {
        if let Some(control) = key.camera_control() {
            return self.projection.adjust_view(control, sun);
        }
        if let Some(minutes) = key.minutes() {
            return self.time_control.adjust_minutes(minutes, now);
        }
        match key {
            KeyCode::KeyR => self.projection.reset_view(),
            KeyCode::KeyT => {
                self.time_control.reset();
                true
            },
            _ => false,
        }
    }

    /// Takes note of another window size; tells whether the surface is to be configured with it.
    pub fn resize(&mut self, size: PhysicalSize) -> (configures: bool)
        requires
            old(self).wf(),
        ensures
            configures == (size.width > 0 && size.height > 0),
            *final(self) == old(self).after_resize(size),
            final(self).wf(),
    {
        if size.width == 0 || size.height == 0 {
            return false;
        }
        self.surface_size = size;
        true
    }
}

/// A key press that reports no change leaves everything as it was; one that turns the camera or
/// zooms does not touch the time, and one that moves the time does not touch the camera.
pub proof fn law_keys_keep_to_their_part(
    state: RendererState,
    key: KeyCode,
    now: Instant,
    sun: SolarPosition,
)
    ensures
        !state.key_changes(key, now) ==> state.after_key(key, now, sun) == state,
        key.turns() is Some || key is KeyR ==> state.after_key(key, now, sun).time_control
            == state.time_control,
        key.moves_minutes() is Some || key is KeyT ==> state.after_key(key, now, sun).projection
            == state.projection,
        state.after_key(key, now, sun).location == state.location,
        state.after_key(key, now, sun).output_mode == state.output_mode,
        state.after_key(key, now, sun).surface_size == state.surface_size,
{
}

/// A configured longitude that is valid decides the clock, to within half a day of UTC; without
/// one the clock is that of the system.
pub proof fn law_configured_place_has_a_clock(config: AppConfig, system_offset_seconds: i32)
    requires
        config.valid(),
        crate::clock::offset_in_range(system_offset_seconds as int),
    ensures
        ({
            let place = Location::of_config(config.location, system_offset_seconds);
            let offset = place.longitude.spec_clock_offset() as int;
            &&& crate::clock::offset_in_range(offset)
            &&& config.location.longitude matches Some(longitude) ==> offset
                == longitude.seconds_east() && -43_200 <= offset <= 43_200
            &&& config.location.longitude is None ==> offset == system_offset_seconds
        }),
{
    if let Some(longitude) = config.location.longitude {
        crate::meridian::law_clock_shows_the_nearest_second(longitude);
    }
}

/// After the key that returns to the present, the clock's own time is shown.
pub proof fn law_reset_shows_the_present(
    state: RendererState,
    now: Instant,
    sun: SolarPosition,
    utc_millis: i64,
)
    ensures
        state.after_key(KeyCode::KeyT, now, sun).shown_millis(utc_millis) == utc_millis,
{
}

/// A presented frame has been drawn, a skipped or fatal one has not, and the surface is configured
/// again only where it does not fit the window any more.
pub proof fn law_drawn_frames_are_presented(texture: SurfaceTexture)
    ensures
        texture.outcome() is Presented ==> texture.drawable(),
        texture.outcome() is Skip || texture.outcome() is Fatal ==> !texture.drawable(),
        texture.outcome() is Reconfigure <==> texture is Suboptimal || texture is Outdated,
{
}

/// Two renderers that differ in the time offset show moments that lie apart by just the minutes
/// between their offsets, in the direction of the greater offset; without an offset the clock's own
/// time is shown.
pub proof fn law_shown_moments_differ_by_the_offsets(
    state: RendererState,
    other: RendererState,
    utc_millis: i64,
    later_millis: i64,
)
    ensures
        other.shown_millis(utc_millis) - state.shown_millis(utc_millis) == 60_000 * (
        other.time_control.offset_minutes - state.time_control.offset_minutes),
        state.shown_millis(later_millis) - state.shown_millis(utc_millis) == later_millis
            - utc_millis,
        state.time_control.offset_minutes == 0 ==> state.shown_millis(utc_millis) == utc_millis,
{
}

/// An accepted comma shows the moment one minute earlier than before, an accepted period one minute
/// later, whatever the offset was; either is accepted unless one was in the last 50 milliseconds,
/// and a press that is not accepted changes nothing.
pub proof fn law_time_keys_step_one_minute(
    state: RendererState,
    now: Instant,
    sun: SolarPosition,
    utc_millis: i64,
)
    requires
        i64::MIN < state.time_control.offset_minutes < i64::MAX,
    ensures
        ({
            let accepted = state.time_control.last_adjustment matches Some(last) ==> now.nanos
                >= last.nanos + 50_000_000;
            let back = state.after_key(KeyCode::Comma, now, sun);
            let forward = state.after_key(KeyCode::Period, now, sun);
            &&& state.key_changes(KeyCode::Comma, now) == accepted
            &&& state.key_changes(KeyCode::Period, now) == accepted
            &&& accepted ==> back.shown_millis(utc_millis) == state.shown_millis(utc_millis)
                - 60_000
            &&& accepted ==> forward.shown_millis(utc_millis) == state.shown_millis(utc_millis)
                + 60_000
            &&& accepted ==> back.time_control.last_adjustment == Some(now)
                && forward.time_control.last_adjustment == Some(now)
            &&& !accepted ==> back == state && forward == state
        }),
{
}

/// The arrows turn a camera the way they point, R lets it follow the sun again, and T returns to
/// the present; no other key but the two that step the time does anything.
pub proof fn law_keys_do_what_they_say(state: RendererState, now: Instant, sun: SolarPosition)
    ensures
        ({
            let turned = |key: KeyCode| state.after_key(key, now, sun).projection;
            &&& turned(KeyCode::ArrowUp) == state.projection.after_control(
                CameraControl::PitchUp,
                sun,
            )
            &&& turned(KeyCode::ArrowDown) == state.projection.after_control(
                CameraControl::PitchDown,
                sun,
            )
            &&& turned(KeyCode::ArrowLeft) == state.projection.after_control(
                CameraControl::YawLeft,
                sun,
            )
            &&& turned(KeyCode::ArrowRight) == state.projection.after_control(
                CameraControl::YawRight,
                sun,
            )
            &&& turned(KeyCode::KeyR) == state.projection.after_reset()
            &&& KeyCode::ArrowUp.turns() == Some(CameraControl::PitchUp)
            &&& KeyCode::ArrowDown.turns() == Some(CameraControl::PitchDown)
            &&& KeyCode::ArrowLeft.turns() == Some(CameraControl::YawLeft)
            &&& KeyCode::ArrowRight.turns() == Some(CameraControl::YawRight)
            &&& KeyCode::KeyR.turns() is None && KeyCode::KeyT.turns() is None
            &&& KeyCode::Comma.turns() is None && KeyCode::Period.turns() is None
            &&& KeyCode::Escape.turns() is None && KeyCode::Other.turns() is None
            &&& state.after_key(KeyCode::KeyT, now, sun).time_control == TimeControl::initial()
            &&& state.after_key(KeyCode::Escape, now, sun) == state
            &&& state.after_key(KeyCode::Other, now, sun) == state
        }),
{
}

/// A new frame is asked for where a key steered a camera or moved the time: by the arrows and R
/// only in a projection with a camera, by T always, by other keys never.
pub proof fn law_frames_follow_the_keys(state: RendererState, key: KeyCode, now: Instant)
    ensures
        key is ArrowUp || key is ArrowDown || key is ArrowLeft || key is ArrowRight || key is KeyR
            ==> (state.key_changes(key, now) <==> state.projection is Perspective),
        state.key_changes(KeyCode::KeyT, now),
        !state.key_changes(KeyCode::Escape, now),
        !state.key_changes(KeyCode::Other, now),
{
}

/// The place is the configured one, and without a longitude it lies on the system's meridian.
pub proof fn law_place_is_the_configured_one(config: LocationConfig, offset_seconds: i32)
    ensures
        Location::of_config(config, offset_seconds).latitude == config.latitude,
        config.longitude matches Some(longitude) ==> Location::of_config(
            config,
            offset_seconds,
        ).longitude == Longitude::Configured(longitude),
        config.longitude is None ==> Location::of_config(config, offset_seconds).longitude == (
        Longitude::StandardMeridian { offset_seconds }),
{
}

/// A new size is taken over as it is unless one of its sides is zero, and touches nothing else.
pub proof fn law_sizes_are_taken_over(state: RendererState, size: PhysicalSize)
    ensures
        ({
            let after = state.after_resize(size);
            &&& size.width > 0 && size.height > 0 ==> after.surface_size == size
            &&& size.width == 0 || size.height == 0 ==> after.surface_size == state.surface_size
            &&& after.location == state.location
            &&& after.output_mode == state.output_mode
            &&& after.projection == state.projection
            &&& after.time_control == state.time_control
        }),
{
}

/// What becomes of a frame is settled by what the surface hands out.
pub proof fn law_outcomes_of_a_frame(texture: SurfaceTexture)
    ensures
        texture.outcome() is Presented <==> texture is Success,
        texture.outcome() is Reconfigure <==> texture is Suboptimal || texture is Outdated,
        texture.outcome() is Skip <==> texture is Timeout || texture is Occluded,
        texture.outcome() is Fatal <==> texture is Lost || texture is Validation,
        texture.drawable() <==> texture is Success || texture is Suboptimal,
{
}

/// The title holds the output mode, the projection, the shown time, and the elevation and the
/// azimuth of the sun, in this order.
pub proof fn law_titles_hold_what_is_shown(
    output: Seq<char>,
    projection: Seq<char>,
    time: Seq<char>,
    elevation: Seq<char>,
    azimuth: Seq<char>,
)
    ensures
        ({
            let title = title_text(output, projection, time, elevation, azimuth);
            let a = 9int;
            let b = a + output.len() + 3;
            let c = b + projection.len() + 4;
            let d = c + time.len() + 13;
            let e = d + elevation.len() + 16;
            &&& title.len() == e + azimuth.len() + 1
            &&& title.take(a) == "Scatter ["@
            &&& title.subrange(a, a + output.len()) == output
            &&& title.subrange(b, b + projection.len()) == projection
            &&& title.subrange(c, c + time.len()) == time
            &&& title.subrange(d, d + elevation.len()) == elevation
            &&& title.subrange(e, e + azimuth.len()) == azimuth
        }),
{
    reveal_strlit("Scatter [");
    reveal_strlit(" | ");
    reveal_strlit("] — ");
    reveal_strlit(" LMT  |  sun ");
    reveal_strlit("° high, azimuth ");
    reveal_strlit("°");
    let title = title_text(output, projection, time, elevation, azimuth);
    let a = 9int;
    let b = a + output.len() + 3;
    let c = b + projection.len() + 4;
    let d = c + time.len() + 13;
    let e = d + elevation.len() + 16;
    assert(title.take(a) =~= "Scatter ["@);
    assert(title.subrange(a, a + output.len()) =~= output);
    assert(title.subrange(b, b + projection.len()) =~= projection);
    assert(title.subrange(c, c + time.len()) =~= time);
    assert(title.subrange(d, d + elevation.len()) =~= elevation);
    assert(title.subrange(e, e + azimuth.len()) =~= azimuth);
}

} // verus!
