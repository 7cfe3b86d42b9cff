use scatter::angle::{SolarPosition, DEGREE, FULL_TURN, RIGHT_ANGLE};
use scatter::geometry::PhysicalSize;
use scatter::projection::equirectangular::letterbox_viewport;
use scatter::projection::perspective::{
    camera_pitch, DEFAULT_FOCAL_LENGTH_NM, MAX_FOCAL_LENGTH_NM, MIN_FOCAL_LENGTH_NM, ZOOM_UNIT,
};
use scatter::projection::{
    CameraControl, CameraUniform, CameraView, Equirectangular, FrameViewport, MouseScrollDelta,
    Perspective, Projection, ProjectionKind, ShaderTexts, SCROLL_LINE,
};

const LINE: i64 = 1_000_000_000;

fn assert_close(actual: f32, expected: f32) {
    assert!((actual - expected).abs() < 0.001, "{actual} != {expected}");
}

fn pixels(parts: u64, viewport: FrameViewport) -> f32 {
    (parts as f64 / viewport.denominator as f64) as f32
}

fn nanodegrees(radians: f64) -> i64 {
    (radians.to_degrees() * DEGREE as f64).round() as i64
}

/// The position of the sun that a direction (east, up, north) points to.
fn sun_at(direction: [f32; 3]) -> SolarPosition {
    let [east, up, north] = direction.map(f64::from);
    SolarPosition {
        elevation: nanodegrees(up.clamp(-1.0, 1.0).asin()),
        azimuth: nanodegrees(east.atan2(north)).rem_euclid(FULL_TURN),
    }
}

fn line_delta(lines: i64) -> MouseScrollDelta {
    MouseScrollDelta::LineDelta { horizontal: 0, vertical: lines * LINE }
}

fn zoom_of(delta: MouseScrollDelta) -> u64 {
    let lines = delta.lines() as f64 / SCROLL_LINE as f64;
    (1.1f64.powf(lines) * ZOOM_UNIT as f64).round() as u64
}

fn texts() -> ShaderTexts {
    ShaderTexts {
        sky: "sky".to_string(),
        perspective: "lens".to_string(),
        equirectangular: "map".to_string(),
        stars: "stars".to_string(),
        perspective_stars: "lens stars".to_string(),
        equirectangular_stars: "map stars".to_string(),
    }
}

#[test]
fn window_wider_than_angular_view_gets_centered_side_bars() {
    let viewport = letterbox_viewport(PhysicalSize { width: 4000, height: 900 });

    assert_close(pixels(viewport.width, viewport), 3410.5264);
    assert_close(pixels(viewport.height, viewport), 900.0);
    assert_close(pixels(viewport.x, viewport), 294.7368);
    assert_close(pixels(viewport.y, viewport), 0.0);
}

#[test]
fn window_taller_than_angular_view_gets_centered_horizontal_bars() {
    let viewport = letterbox_viewport(PhysicalSize { width: 950, height: 950 });

    assert_close(pixels(viewport.width, viewport), 950.0);
    assert_close(pixels(viewport.height, viewport), 250.6944);
    assert_close(pixels(viewport.x, viewport), 0.0);
    assert_close(pixels(viewport.y, viewport), 349.6528);
}

#[test]
fn three_hundred_sixty_by_ninety_five_view_uses_the_whole_surface() {
    let viewport = letterbox_viewport(PhysicalSize { width: 1440, height: 380 });

    assert_close(pixels(viewport.width, viewport), 1440.0);
    assert_close(pixels(viewport.height, viewport), 380.0);
    assert_close(pixels(viewport.x, viewport), 0.0);
    assert_close(pixels(viewport.y, viewport), 0.0);
}

#[test]
fn default_matches_a_normal_human_eye_lens() {
    assert_eq!(Perspective::default().focal_length_nm() as f64 / 1e6, 50.0);
}

#[test]
fn camera_pitch_stops_at_the_horizon_when_sun_is_below_it() {
    assert_eq!(camera_pitch(nanodegrees(-0.4)), nanodegrees(0.0));
    assert_eq!(camera_pitch(nanodegrees(0.4)), nanodegrees(0.4));
}

#[test]
fn scrolling_up_zooms_in_and_scrolling_down_zooms_out() {
    let mut camera = Perspective::default();
    camera.handle_scroll(line_delta(1), zoom_of(line_delta(1)));
    let zoomed_in = camera.focal_length_nm();
    camera.handle_scroll(line_delta(-2), zoom_of(line_delta(-2)));

    assert!(zoomed_in > DEFAULT_FOCAL_LENGTH_NM);
    assert!(camera.focal_length_nm() < DEFAULT_FOCAL_LENGTH_NM);
}

#[test]
fn arrow_controls_leave_tracking_mode_and_clamp_pitch() {
    let mut camera = Perspective::default();
    let sun = sun_at([0.0, 0.5, 0.866_025_4]);

    camera.adjust_view(CameraControl::PitchUp, sun);
    for _ in 0..100 {
        camera.adjust_view(CameraControl::PitchUp, sun);
    }

    assert_eq!(camera.manual_pitch().map(|pitch| pitch as f64 / DEGREE as f64), Some(90.0));
    assert!(!camera.is_tracking_sun());
}

#[test]
fn reset_returns_camera_to_sun_tracking() {
    let mut camera = Perspective::default();
    let sun = sun_at([1.0, 0.0, 0.0]);

    camera.adjust_view(CameraControl::YawLeft, sun);
    camera.reset_view();

    assert!(camera.is_tracking_sun());
}

#[test]
fn letterbox_values_are_exact() {
    let wide = letterbox_viewport(PhysicalSize { width: 4000, height: 900 });
    assert_eq!(
        wide,
        FrameViewport { x: 11_200, y: 0, width: 129_600, height: 34_200, denominator: 38 }
    );
    let tall = letterbox_viewport(PhysicalSize { width: 950, height: 950 });
    assert_eq!(
        tall,
        FrameViewport { x: 0, y: 50_350, width: 136_800, height: 36_100, denominator: 144 }
    );
}

#[test]
fn empty_and_huge_windows_have_a_viewport() {
    let empty = letterbox_viewport(PhysicalSize { width: 0, height: 0 });
    assert_eq!(empty, letterbox_viewport(PhysicalSize { width: 1, height: 1 }));
    let huge = letterbox_viewport(PhysicalSize { width: u32::MAX, height: u32::MAX });
    assert_eq!(huge.width, 144 * u64::from(u32::MAX));
    assert_eq!(huge.y, 53 * u64::from(u32::MAX));
    let full = FrameViewport::full(PhysicalSize { width: 0, height: 7 });
    assert_eq!(full, FrameViewport { x: 0, y: 0, width: 1, height: 7, denominator: 1 });
}

#[test]
fn each_projection_has_its_own_viewport() {
    let size = PhysicalSize { width: 4000, height: 900 };
    let lens = Projection::new(ProjectionKind::Perspective);
    assert_eq!(lens.viewport(size), FrameViewport::full(size));
    let map = Projection::new(ProjectionKind::Equirectangular);
    assert_eq!(map.viewport(size), letterbox_viewport(size));
}

#[test]
fn tracking_camera_looks_at_the_sun_or_the_horizon() {
    let camera = Perspective::default();
    let high = SolarPosition { elevation: 20 * DEGREE, azimuth: 190 * DEGREE };
    let view = camera.camera_uniform(high);
    assert_eq!(view.yaw, -170 * DEGREE);
    assert_eq!(view.pitch, 20 * DEGREE);
    assert_eq!((view.half_height, view.distance), (12_000_000, 50_000_000));
    let set = SolarPosition { elevation: -3 * DEGREE, azimuth: 180 * DEGREE };
    let view = camera.camera_uniform(set);
    assert_eq!((view.yaw, view.pitch), (180 * DEGREE, 0));
}

#[test]
fn the_first_turn_starts_at_the_sun() {
    let mut camera = Perspective::default();
    let sun = SolarPosition { elevation: -10 * DEGREE, azimuth: 359 * DEGREE };
    camera.adjust_view(CameraControl::YawRight, sun);
    assert_eq!(camera.manual_view, Some(CameraView { yaw: 0, pitch: 0 }));
    camera.adjust_view(CameraControl::PitchUp, sun);
    let elsewhere = SolarPosition { elevation: 50 * DEGREE, azimuth: 100 * DEGREE };
    let view = camera.camera_uniform(elsewhere);
    assert_eq!((view.yaw, view.pitch), (0, DEGREE));
    camera.adjust_view(CameraControl::PitchDown, elsewhere);
    camera.adjust_view(CameraControl::PitchDown, elsewhere);
    assert_eq!(camera.manual_pitch(), Some(0));
}

#[test]
fn turning_comes_round_and_cancels() {
    let mut camera = Perspective::default();
    let sun = SolarPosition { elevation: 5, azimuth: 7 };
    camera.adjust_view(CameraControl::YawLeft, sun);
    let start = CameraView { yaw: FULL_TURN - DEGREE + 7, pitch: 5 };
    assert_eq!(camera.manual_view, Some(start));
    for _ in 0..360 {
        camera.adjust_view(CameraControl::YawRight, sun);
    }
    assert_eq!(camera.manual_view, Some(start));
    camera.adjust_view(CameraControl::YawRight, sun);
    camera.adjust_view(CameraControl::YawLeft, sun);
    assert_eq!(camera.manual_view, Some(start));
    for _ in 0..91 {
        camera.adjust_view(CameraControl::PitchDown, sun);
    }
    assert_eq!(camera.manual_pitch(), Some(0));
    for _ in 0..90 {
        camera.adjust_view(CameraControl::PitchUp, sun);
    }
    assert_eq!(camera.manual_pitch(), Some(RIGHT_ANGLE));
}

#[test]
fn zoom_is_exact_and_stops_at_the_ends_of_the_lens() {
    let mut camera = Perspective::default();
    assert!(camera.handle_scroll(line_delta(1), 1_100_000_000));
    assert_eq!(camera.focal_length_nm(), 55_000_000);
    assert!(camera.handle_scroll(line_delta(100), u64::MAX));
    assert_eq!(camera.focal_length_nm(), MAX_FOCAL_LENGTH_NM);
    assert!(camera.handle_scroll(line_delta(-100), 0));
    assert_eq!(camera.focal_length_nm(), MIN_FOCAL_LENGTH_NM);
    assert!(camera.handle_scroll(line_delta(1), 1_000_000_042));
    assert_eq!(camera.focal_length_nm(), MIN_FOCAL_LENGTH_NM + 1);
}

#[test]
fn the_wheel_decides_the_direction_of_the_zoom() {
    let mut camera = Perspective::default();
    assert!(camera.handle_scroll(line_delta(1), ZOOM_UNIT / 2));
    assert_eq!(camera, Perspective::default());
    assert!(camera.handle_scroll(line_delta(-1), 2 * ZOOM_UNIT));
    assert_eq!(camera, Perspective::default());
    let down = MouseScrollDelta::PixelDelta { x: 0, y: -1 };
    assert!(camera.handle_scroll(down, ZOOM_UNIT / 2));
    assert_eq!(camera.focal_length_nm(), DEFAULT_FOCAL_LENGTH_NM / 2);
}

#[test]
fn only_vertical_movement_zooms() {
    let mut camera = Perspective::default();
    let sideways = MouseScrollDelta::LineDelta { horizontal: 5 * LINE, vertical: 0 };
    assert!(!camera.handle_scroll(sideways, 2 * ZOOM_UNIT));
    assert_eq!(camera, Perspective::default());
    let pad = MouseScrollDelta::PixelDelta { x: 0, y: 250 * LINE };
    assert_eq!(pad.lines() as f64 / SCROLL_LINE as f64, 2.5);
    assert_eq!(line_delta(-3).lines(), -3 * SCROLL_LINE);
    assert!(camera.handle_scroll(pad, zoom_of(pad)));
}

#[test]
fn the_unrolled_sky_cannot_be_steered() {
    let mut map = Projection::new(ProjectionKind::Equirectangular);
    let sun = SolarPosition { elevation: 0, azimuth: 0 };
    assert!(!map.handle_scroll(line_delta(1), 2 * ZOOM_UNIT));
    assert!(!map.adjust_view(CameraControl::PitchUp, sun));
    assert!(!map.reset_view());
    assert_eq!(map, Projection::Equirectangular(Equirectangular));
    assert_eq!(
        map.camera_uniform(sun),
        CameraUniform { yaw: 0, pitch: 0, half_height: 0, distance: 1 }
    );
}

#[test]
fn the_camera_is_steered_through_its_projection() {
    let mut lens = Projection::new(ProjectionKind::default());
    let sun = SolarPosition { elevation: 0, azimuth: 0 };
    assert!(lens.adjust_view(CameraControl::PitchUp, sun));
    assert_eq!(lens.camera_uniform(sun).pitch, DEGREE);
    assert!(lens.handle_scroll(line_delta(1), 2 * ZOOM_UNIT));
    assert_eq!(lens.camera_uniform(sun).distance, 100_000_000);
    assert!(lens.reset_view());
    assert_eq!(lens.camera_uniform(sun).pitch, 0);
    assert_eq!(lens.camera_uniform(sun).distance, 100_000_000);
}

#[test]
fn labels_name_the_projection_and_round_to_even() {
    let label = |focal_length_nm| {
        Projection::Perspective(Perspective { focal_length_nm, manual_view: None }).label()
    };
    assert_eq!(label(50_000_000), "perspective 50 mm");
    assert_eq!(label(50_500_000), "perspective 50 mm");
    assert_eq!(label(51_500_000), "perspective 52 mm");
    assert_eq!(label(50_500_001), "perspective 51 mm");
    assert_eq!(label(299_600_000), "perspective 300 mm");
    let map = Projection::new(ProjectionKind::Equirectangular);
    assert_eq!(map.label(), "equirectangular 360°");
}

#[test]
fn shader_texts_are_put_together_for_the_projection() {
    let lens = Projection::new(ProjectionKind::Perspective);
    let map = Projection::new(ProjectionKind::Equirectangular);
    assert_eq!(lens.shader_source(&texts()), "sky\nlens");
    assert_eq!(map.shader_source(&texts()), "sky\nmap");
    assert_eq!(lens.star_shader_source(&texts()), "stars\nlens stars");
    assert_eq!(map.star_shader_source(&texts()), "stars\nmap stars");
}
