use chrono::{TimeZone, Utc};
use scatter::angle::{SolarPosition, DEGREE};
use scatter::clock::{longitude_local_time, LocalTime};
use scatter::config::{AppConfig, LocationConfig};
use scatter::degrees::Degrees;
use scatter::geometry::PhysicalSize;
use scatter::meridian::Longitude;
use scatter::output::TextureFormat::{Bgra8Unorm, Other, Rgba8Unorm, Rgba8UnormSrgb};
use scatter::output::{select_output_mode_with_preference, OutputMode, TextureFormat};
use scatter::projection::{MouseScrollDelta, Projection, ProjectionKind};
use scatter::renderer::{
    window_title, KeyCode, Location, RenderStatus, RendererState, SurfaceTexture,
};
use scatter::time::{Duration, Instant};
use scatter::time_control::TimeControl;

const NOW: Instant = Instant { nanos: 77_000_000_000 };
const SUN: SolarPosition = SolarPosition { elevation: 30_000_000_000, azimuth: 90_000_000_000 };
const SDR: OutputMode = OutputMode { format: TextureFormat::Bgra8Unorm, hdr: false };

fn degrees(value: f64) -> Degrees {
    Degrees { bits: value.to_bits() }
}

fn longitude(value: f64) -> Longitude {
    Longitude::Configured(degrees(value))
}

fn meridian(offset_seconds: i32) -> Longitude {
    Longitude::StandardMeridian { offset_seconds }
}

fn state(kind: ProjectionKind) -> RendererState {
    state_at(kind, None)
}

fn state_at(kind: ProjectionKind, longitude: Option<f64>) -> RendererState {
    let mut config = AppConfig::default();
    config.rendering.projection = kind;
    config.location.longitude = longitude.map(degrees);
    let size = PhysicalSize { width: 960, height: 640 };
    RendererState::new(config.location, 28_800, config.rendering, SDR, size)
}

fn noon() -> i64 {
    Utc.with_ymd_and_hms(2026, 7, 12, 12, 0, 0).unwrap().timestamp_millis()
}

#[test]
fn prefers_float_surface_for_hdr_output() {
    let formats = [TextureFormat::Bgra8UnormSrgb, TextureFormat::Rgba16Float];
    let output =
        select_output_mode_with_preference(&formats, TextureFormat::Bgra8UnormSrgb, false).unwrap();

    assert_eq!(output.format, TextureFormat::Rgba16Float);
    assert!(output.is_hdr());
}

#[test]
fn keeps_default_surface_format_when_hdr_is_unavailable() {
    let formats = [TextureFormat::Bgra8UnormSrgb, TextureFormat::Rgba8UnormSrgb];
    let output =
        select_output_mode_with_preference(&formats, TextureFormat::Bgra8UnormSrgb, false).unwrap();

    assert_eq!(output.format, TextureFormat::Bgra8UnormSrgb);
    assert!(!output.is_hdr());
}

#[test]
fn forced_sdr_uses_an_eight_bit_surface_when_hdr_is_available() {
    let formats = [TextureFormat::Rgba16Float, TextureFormat::Bgra8UnormSrgb];
    let output =
        select_output_mode_with_preference(&formats, TextureFormat::Rgba16Float, true).unwrap();

    assert_eq!(output.format, TextureFormat::Bgra8UnormSrgb);
    assert!(!output.is_hdr());
}

#[test]
fn forced_sdr_rejects_an_hdr_only_surface() {
    assert!(
        select_output_mode_with_preference(
            &[TextureFormat::Rgba16Float],
            TextureFormat::Rgba16Float,
            true,
        )
        .is_none()
    );
}

#[test]
fn target_longitude_time_uses_four_minutes_per_degree() {
    let utc = Utc.with_ymd_and_hms(2026, 7, 12, 12, 0, 0).unwrap();
    let local = longitude_local_time(utc.timestamp_millis(), longitude(121.5)).unwrap();

    assert_eq!(local.format(), "2026-07-12 20:06:00");
}

#[test]
fn time_adjustments_are_debounced_and_resettable() {
    let start = NOW;
    let mut control = TimeControl::default();

    assert!(control.adjust_minutes(1, start));
    assert!(!control.adjust_minutes(1, start.plus(Duration::from_millis(49))));
    assert!(control.adjust_minutes(-1, start.plus(Duration::from_millis(50))));
    assert_eq!(control.offset_minutes(), 0);

    control.adjust_minutes(1, start.plus(Duration::from_millis(100)));
    control.reset();
    assert_eq!(control.offset_minutes(), 0);
}

#[test]
fn a_dropped_adjustment_does_not_extend_the_debounce() {
    let mut control = TimeControl::default();
    assert!(control.adjust_minutes(5, NOW));
    assert!(!control.adjust_minutes(1, NOW.plus(Duration::from_millis(40))));
    assert!(control.adjust_minutes(1, NOW.plus(Duration::from_millis(60))));
    assert_eq!(control.offset_minutes(), 6);
    assert!(!control.adjust_minutes(1, NOW));
    control.reset();
    assert!(control.adjust_minutes(1, NOW));
}

#[test]
fn fallback_formats_are_tried_in_order() {
    let hdr = TextureFormat::Rgba16Float;
    let choose = |formats: &[TextureFormat]| {
        select_output_mode_with_preference(formats, hdr, true).map(|mode| mode.format)
    };
    assert_eq!(choose(&[Rgba8Unorm, Bgra8Unorm, Rgba8UnormSrgb, hdr]), Some(Rgba8UnormSrgb));
    assert_eq!(choose(&[Rgba8Unorm, hdr, Bgra8Unorm]), Some(Bgra8Unorm));
    assert_eq!(choose(&[Other(3), Rgba8Unorm]), Some(Rgba8Unorm));
    assert_eq!(choose(&[hdr, Other(9), Other(3)]), Some(Other(9)));
    assert_eq!(choose(&[]), None);
    let unlisted = select_output_mode_with_preference(&[], Other(1), true);
    assert_eq!(unlisted, Some(OutputMode { format: Other(1), hdr: false }));
}

#[test]
fn forced_sdr_leaves_a_default_of_ten_bits() {
    let ten_bits = Other(0);
    let choose = |formats: &[TextureFormat], force_sdr| {
        select_output_mode_with_preference(formats, ten_bits, force_sdr)
    };
    let eight_bits = OutputMode { format: TextureFormat::Bgra8UnormSrgb, hdr: false };
    let formats = [ten_bits, TextureFormat::Bgra8UnormSrgb];
    assert_eq!(choose(&formats, true), Some(eight_bits));
    let kept = Some(OutputMode { format: ten_bits, hdr: false });
    assert_eq!(choose(&formats, false), kept);
    assert_eq!(choose(&[TextureFormat::Rgba16Float, ten_bits], true), kept);
}

#[test]
fn forced_sdr_keeps_a_default_of_eight_bits() {
    let formats = [TextureFormat::Bgra8UnormSrgb, TextureFormat::Rgba8Unorm];
    let chosen = select_output_mode_with_preference(&formats, Rgba8Unorm, true);
    assert_eq!(chosen, Some(OutputMode { format: Rgba8Unorm, hdr: false }));
}

#[test]
fn forced_sdr_keeps_a_default_of_eight_bits_without_a_name() {
    let unnamed = TextureFormat::OtherEightBit(7);
    let formats = [TextureFormat::Bgra8UnormSrgb, unnamed];
    let chosen = select_output_mode_with_preference(&formats, unnamed, true);
    assert_eq!(chosen, Some(OutputMode { format: unnamed, hdr: false }));
    for default in [TextureFormat::Rgba16Float, Other(0)] {
        let formats = [TextureFormat::Rgba16Float, Other(0), unnamed];
        let chosen = select_output_mode_with_preference(&formats, default, true);
        assert_eq!(chosen, Some(OutputMode { format: unnamed, hdr: false }));
    }
    let formats = [Other(0), unnamed];
    let chosen = select_output_mode_with_preference(&formats, TextureFormat::Rgba16Float, false);
    assert_eq!(chosen, Some(OutputMode { format: Other(0), hdr: false }));
}

#[test]
fn eight_bits_are_told_apart() {
    assert!(TextureFormat::OtherEightBit(0).has_eight_bits());
    assert!(Bgra8Unorm.has_eight_bits());
    assert!(!Other(0).has_eight_bits());
    assert!(!TextureFormat::Rgba16Float.has_eight_bits());
}

#[test]
fn modes_are_labelled() {
    assert_eq!(SDR.label(), "SDR");
    assert_eq!(OutputMode { format: TextureFormat::Rgba16Float, hdr: true }.label(), "HDR");
}

#[test]
fn clock_offsets_follow_the_longitude() {
    assert_eq!(degrees(121.5).clock_offset(), 29_160);
    assert_eq!(degrees(-180.0).clock_offset(), -43_200);
    assert_eq!(degrees(1.0 / 480.0).clock_offset(), 1);
    assert_eq!(longitude(15.0).clock_offset(), 3_600);
    assert_eq!(meridian(3_601).clock_offset(), 3_601);
}

#[test]
fn clock_offsets_round_like_the_product() {
    let mut values = vec![
        0.0,
        -0.0,
        f64::NAN,
        f64::INFINITY,
        f64::NEG_INFINITY,
        f64::MAX,
        f64::MIN_POSITIVE,
        5e-324,
        1.0 / 480.0,
        -1.0 / 480.0,
        4_194_303.999,
        8_947_848.5,
        8_947_848.533,
        -8_947_848.533_4,
        16_777_216.0,
        33_554_432.0,
    ];
    for half in (1..86_400).step_by(2) {
        let tie = f64::from(half) / 480.0;
        for bits in tie.to_bits() - 3..=tie.to_bits() + 3 {
            values.push(f64::from_bits(bits));
            values.push(-f64::from_bits(bits));
        }
    }
    let mut bits: u64 = 0x9e37_79b9_7f4a_7c15;
    for _ in 0..10_000 {
        bits = bits.wrapping_mul(6_364_136_223_846_793_005).wrapping_add(1_442_695_040_888_963_407);
        values.push(f64::from_bits(bits));
        values.push((bits >> 11) as f64 / (1u64 << 53) as f64 * 360.0 - 180.0);
    }
    for value in values {
        assert_eq!(degrees(value).clock_offset(), (value * 240.0).round() as i32, "{value:?}");
    }
}

#[test]
fn the_standard_meridian_keeps_its_clock() {
    for offset in -86_399..86_400 {
        let longitude = f64::from(offset) / 240.0;
        assert_eq!(degrees(longitude).clock_offset(), meridian(offset).clock_offset());
    }
}

#[test]
fn local_time_needs_an_offset_shorter_than_a_day_and_a_date() {
    assert_eq!(
        longitude_local_time(0, meridian(86_399)),
        Some(LocalTime { utc_millis: 0, offset_seconds: 86_399 })
    );
    assert_eq!(longitude_local_time(0, meridian(86_400)), None);
    assert_eq!(longitude_local_time(0, meridian(-86_400)), None);
    assert_eq!(longitude_local_time(0, longitude(360.0)), None);
    assert!(longitude_local_time(0, longitude(359.0)).is_some());
    assert!(longitude_local_time(8_210_266_876_799_999, longitude(0.0)).is_some());
    assert_eq!(longitude_local_time(8_210_266_876_800_000, longitude(0.0)), None);
    assert!(longitude_local_time(-8_334_601_228_800_000, longitude(0.0)).is_some());
    assert_eq!(longitude_local_time(-8_334_601_228_800_001, longitude(0.0)), None);
}

#[test]
fn civil_time_is_read_off_the_local_clock() {
    let local = longitude_local_time(noon() + 3_007_999, longitude(180.0)).unwrap();
    let civil = local.civil().unwrap();
    assert_eq!((civil.hour, civil.minute, civil.second), (0, 50, 7));
    assert_eq!((civil.days_in_year, civil.ordinal), (365, 194));
    assert_eq!(civil.offset_seconds, 43_200);

    let leap = Utc.with_ymd_and_hms(2024, 12, 31, 23, 59, 59).unwrap().timestamp_millis();
    let civil = longitude_local_time(leap, meridian(0)).unwrap().civil().unwrap();
    assert_eq!((civil.days_in_year, civil.ordinal), (366, 366));
    let civil = longitude_local_time(leap, meridian(1)).unwrap().civil().unwrap();
    assert_eq!((civil.days_in_year, civil.ordinal, civil.hour), (365, 1, 0));

    let before_epoch = longitude_local_time(-1, longitude(-15.0)).unwrap().civil().unwrap();
    assert_eq!((before_epoch.hour, before_epoch.minute, before_epoch.second), (22, 59, 59));
    assert_eq!((before_epoch.days_in_year, before_epoch.ordinal), (365, 365));
}

#[test]
fn there_is_no_civil_time_beyond_the_calendar() {
    let last = 8_210_266_876_799_999;
    assert!(longitude_local_time(last, longitude(0.0)).unwrap().civil().is_some());
    let east = longitude_local_time(last, longitude(1.0)).unwrap();
    assert_eq!(east.civil(), None);
    assert!(longitude_local_time(last, longitude(-1.0)).unwrap().civil().is_some());
    let west = longitude_local_time(-8_334_601_228_800_000, longitude(-1.0)).unwrap();
    assert_eq!(west.civil(), None);
    assert_eq!(east.format(), "+262143-01-01 00:03:59");
    assert_eq!(west.format(), "-262144-12-31 23:56:00");
}

#[test]
fn years_are_written_in_at_least_four_digits() {
    let shown = |utc_millis| longitude_local_time(utc_millis, longitude(0.0)).unwrap().format();
    assert_eq!(shown(0), "1970-01-01 00:00:00");
    assert_eq!(shown(-1), "1969-12-31 23:59:59");
    assert_eq!(shown(253_402_300_799_999), "9999-12-31 23:59:59");
    assert_eq!(shown(253_402_300_800_000), "+10000-01-01 00:00:00");
    assert_eq!(shown(-62_167_219_200_000), "0000-01-01 00:00:00");
    assert_eq!(shown(-62_167_219_200_001), "-0001-12-31 23:59:59");
    assert_eq!(shown(8_210_266_876_799_999), "+262142-12-31 23:59:59");
    let leap_day = Utc.with_ymd_and_hms(2024, 2, 29, 1, 2, 3).unwrap().timestamp_millis();
    assert_eq!(shown(leap_day), "2024-02-29 01:02:03");
    let march = Utc.with_ymd_and_hms(999, 3, 1, 0, 0, 0).unwrap().timestamp_millis();
    assert_eq!(shown(march), "0999-03-01 00:00:00");
}

#[test]
fn every_day_has_its_place_in_the_year() {
    let start = Utc.with_ymd_and_hms(2023, 1, 1, 6, 0, 0).unwrap().timestamp_millis();
    for day in 0..731 {
        let local = longitude_local_time(start + day * 86_400_000, longitude(0.0)).unwrap();
        let civil = local.civil().unwrap();
        let (length, ordinal) = if day < 365 { (365, day + 1) } else { (366, day - 364) };
        assert_eq!((civil.days_in_year, i64::from(civil.ordinal)), (length, ordinal));
    }
}

#[test]
fn moving_east_shows_the_same_as_waiting() {
    let east = longitude_local_time(noon(), longitude(7.0)).unwrap();
    let later = longitude_local_time(noon(), longitude(0.0)).unwrap().plus_minutes(28).unwrap();
    assert_eq!(east.format(), later.format());
    assert_eq!(later.utc_millis, noon() + 28 * 60_000);
    assert_eq!(later.plus_minutes(i64::MAX), None);
    assert_eq!(later.plus_minutes(i64::MIN), None);
    assert_eq!(later.plus_minutes(-28), longitude_local_time(noon(), longitude(0.0)));
}

#[test]
fn the_shown_time_follows_the_keys() {
    let mut shown = state_at(ProjectionKind::Perspective, Some(0.25));
    assert!(shown.handle_key(KeyCode::Period, NOW, SUN));
    assert!(!shown.handle_key(KeyCode::Period, NOW.plus(Duration::from_millis(10)), SUN));
    assert!(shown.handle_key(KeyCode::Period, NOW.plus(Duration::from_millis(50)), SUN));
    let time = shown.current_time(noon()).unwrap();
    assert_eq!(time.format(), "2026-07-12 12:03:00");
    assert!(shown.handle_key(KeyCode::Comma, NOW.plus(Duration::from_millis(200)), SUN));
    assert_eq!(shown.current_time(noon()).unwrap().format(), "2026-07-12 12:02:00");
    assert!(shown.handle_key(KeyCode::KeyT, NOW, SUN));
    assert_eq!(shown.current_time(noon()).unwrap().format(), "2026-07-12 12:01:00");
    assert_eq!(shown.current_time(i64::MAX), None);
}

#[test]
fn time_keys_work_up_to_the_ends_of_the_range() {
    let mut shown = state(ProjectionKind::Perspective);
    shown.time_control.offset_minutes = i64::MAX;
    assert!(shown.handle_key(KeyCode::Comma, NOW, SUN));
    assert_eq!(shown.time_control.offset_minutes(), i64::MAX - 1);
    assert!(!shown.handle_key(KeyCode::Period, NOW, SUN));
    shown.time_control.offset_minutes = i64::MAX;
    assert!(shown.time_control.is_debounced(NOW));
    assert!(!shown.handle_key(KeyCode::Period, NOW, SUN));
    shown.time_control = TimeControl { offset_minutes: i64::MIN, last_adjustment: None };
    assert!(shown.handle_key(KeyCode::Period, NOW, SUN));
    assert_eq!(shown.time_control.offset_minutes(), i64::MIN + 1);
    assert_eq!(shown.current_time(noon()), None);
}

#[test]
fn without_a_longitude_the_system_clock_is_shown() {
    let shown = state(ProjectionKind::Perspective);
    assert_eq!(shown.current_time(noon()).unwrap().format(), "2026-07-12 20:00:00");
}

#[test]
fn arrows_turn_the_camera_and_r_resets_it() {
    let mut shown = state(ProjectionKind::Perspective);
    assert!(shown.handle_key(KeyCode::ArrowUp, NOW, SUN));
    assert!(shown.handle_key(KeyCode::ArrowRight, NOW, SUN));
    let view = shown.camera_uniform(SUN);
    assert_eq!((view.yaw, view.pitch), (91 * DEGREE, 31 * DEGREE));
    assert!(shown.handle_key(KeyCode::ArrowLeft, NOW, SUN));
    assert!(shown.handle_key(KeyCode::ArrowDown, NOW, SUN));
    let view = shown.camera_uniform(SUN);
    assert_eq!((view.yaw, view.pitch), (90 * DEGREE, 30 * DEGREE));
    assert!(shown.handle_key(KeyCode::KeyR, NOW, SUN));
    assert_eq!(shown, state(ProjectionKind::Perspective));
    assert!(!shown.handle_key(KeyCode::Other, NOW, SUN));
    assert!(!shown.handle_key(KeyCode::Escape, NOW, SUN));

    let mut map = state(ProjectionKind::Equirectangular);
    assert!(!map.handle_key(KeyCode::ArrowUp, NOW, SUN));
    assert!(!map.handle_key(KeyCode::KeyR, NOW, SUN));
    assert!(map.handle_key(KeyCode::Comma, NOW, SUN));
}

#[test]
fn the_wheel_zooms_what_is_shown() {
    let mut shown = state(ProjectionKind::Perspective);
    let up = MouseScrollDelta::LineDelta { horizontal: 0, vertical: 1_000_000_000 };
    assert!(shown.handle_scroll(up, 1_100_000_000));
    assert_eq!(shown.projection.label(), "perspective 55 mm");
    let still = MouseScrollDelta::PixelDelta { x: 3, y: 0 };
    assert!(!shown.handle_scroll(still, 1_100_000_000));
}

#[test]
fn empty_sizes_are_not_configured() {
    let mut shown = state(ProjectionKind::Perspective);
    assert!(!shown.resize(PhysicalSize { width: 0, height: 5 }));
    assert!(!shown.resize(PhysicalSize { width: 5, height: 0 }));
    assert_eq!(shown.surface_size, PhysicalSize { width: 960, height: 640 });
    assert!(shown.resize(PhysicalSize { width: 5, height: 6 }));
    assert_eq!(shown.surface_size, PhysicalSize { width: 5, height: 6 });
    let config = AppConfig::default();
    let none = PhysicalSize { width: 0, height: 0 };
    let fresh = RendererState::new(config.location, 0, config.rendering, SDR, none);
    assert_eq!(fresh.surface_size, PhysicalSize { width: 1, height: 1 });
}

#[test]
fn a_missing_longitude_is_the_standard_meridian() {
    let latitude = Degrees { bits: 10.0f64.to_bits() };
    let config = LocationConfig { latitude, longitude: None };
    let location = Location::from_config(config, 28_800);
    assert_eq!(location.latitude, latitude);
    assert_eq!(location.longitude, Longitude::StandardMeridian { offset_seconds: 28_800 });
    let config = LocationConfig { latitude, longitude: Some(latitude) };
    assert_eq!(Location::from_config(config, 28_800).longitude, Longitude::Configured(latitude));
}

#[test]
fn surface_textures_decide_about_the_frame() {
    let all = [
        (SurfaceTexture::Success, true, RenderStatus::Presented),
        (SurfaceTexture::Suboptimal, true, RenderStatus::Reconfigure),
        (SurfaceTexture::Timeout, false, RenderStatus::Skip),
        (SurfaceTexture::Occluded, false, RenderStatus::Skip),
        (SurfaceTexture::Outdated, false, RenderStatus::Reconfigure),
        (SurfaceTexture::Lost, false, RenderStatus::Fatal),
        (SurfaceTexture::Validation, false, RenderStatus::Fatal),
    ];
    for (texture, drawable, status) in all {
        assert_eq!(texture.is_drawable(), drawable);
        assert_eq!(texture.status(), status);
    }
}

#[test]
fn the_title_says_what_is_shown() {
    let expected = "Scatter [SDR | perspective 50 mm] — 2026-07-12 20:06:00 LMT  |  \
                    sun 12.3° high, azimuth 250.0°";
    let shown = state_at(ProjectionKind::Perspective, Some(121.5));
    let time = shown.current_time(noon()).unwrap();
    assert_eq!(shown.title(time, "12.3", "250.0"), expected);
    assert_eq!(
        window_title("SDR", "perspective 50 mm", "2026-07-12 20:06:00", "12.3", "250.0"),
        expected
    );
}

#[test]
fn the_viewport_belongs_to_the_projection() {
    let size = PhysicalSize { width: 1440, height: 380 };
    assert_eq!(state(ProjectionKind::Perspective).viewport(size).width, 1440);
    let map = state(ProjectionKind::Equirectangular);
    assert_eq!(map.viewport(size).width, 144 * 1440);
    assert_eq!(map.projection, Projection::new(ProjectionKind::Equirectangular));
}
