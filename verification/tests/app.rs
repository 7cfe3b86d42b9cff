use scatter::app::{
    after_build, after_render, check_platform, plan_windows, window_attributes, AfterBuild,
    AfterRender, App, BeforeWait, Build, BuildError, InnerSize, LayoutChange, ManagedRenderer,
    WaitPlan, WindowAction, WindowEvent, WindowMode,
};
use scatter::config::{
    AppConfig, ConfigError, LoadError, RefreshAction, RefreshEvent, RuntimeConfig,
};
use scatter::display::{available_displays, sort_displays, DisplayGeometry};
use scatter::geometry::{PhysicalPosition, PhysicalSize};
use scatter::projection::{MouseScrollDelta, ProjectionKind};
use scatter::renderer::{KeyCode, RenderStatus};
use scatter::schedule::{RenderSchedule, WAKE_RECOVERY_DELAY_NANOS};
use scatter::time::{Duration, Instant, SystemTime};

const NOW: Instant = Instant { nanos: 1_000_000_000_000 };
const WALL: SystemTime = SystemTime { nanos: 1_783_857_600_000_000_000 };

fn display(name: &str, x: i32, y: i32, width: u32, height: u32) -> DisplayGeometry {
    DisplayGeometry {
        name: Some(name.into()),
        position: PhysicalPosition { x, y },
        size: PhysicalSize { width, height },
    }
}

fn unnamed(x: i32) -> DisplayGeometry {
    DisplayGeometry {
        name: None,
        position: PhysicalPosition { x, y: 0 },
        size: PhysicalSize { width: 800, height: 600 },
    }
}

fn before(instant: Instant, span: Duration) -> Instant {
    Instant { nanos: instant.nanos - span.nanos }
}

fn wall_after(time: SystemTime, span: Duration) -> SystemTime {
    SystemTime { nanos: time.nanos + span.nanos as i128 }
}

fn runtime() -> RuntimeConfig<String> {
    RuntimeConfig::load("config.toml".to_string(), b"old".to_vec(), AppConfig::default(), NOW)
}

fn wallpaper_app(names: &[&str]) -> App<String, u32> {
    let mut app = App::new(WindowMode::Wallpaper, runtime());
    let mut renderers = Vec::new();
    let mut layout = Vec::new();
    for (index, name) in names.iter().enumerate() {
        renderers.push(ManagedRenderer::new(index as u32));
        layout.push(display(name, index as i32 * 1920, 0, 1920, 1080));
    }
    app.initialize_renderers::<()>(Ok(Build { renderers, layout })).unwrap();
    app
}

fn plan(app: &mut App<String, u32>, now: Instant) -> WaitPlan {
    match app.about_to_wait::<&str>(&Ok(()), now) {
        BeforeWait::Wait(plan) => plan,
        BeforeWait::Exit => panic!("the program is left"),
    }
}

#[test]
fn display_order_is_stable_across_monitor_enumeration_order() {
    let left = display("Left", -1920, 0, 1920, 1080);
    let primary = display("Primary", 0, 0, 2560, 1440);
    let above = display("Above", 0, -1080, 1920, 1080);
    let mut layout = vec![primary.clone(), left.clone(), above.clone()];

    sort_displays(&mut layout);

    assert_eq!(layout, vec![left, above, primary]);
}

#[test]
fn geometry_change_produces_a_different_layout() {
    let original = vec![display("External", 0, 0, 1920, 1080)];
    let resized = vec![display("External", 0, 0, 2560, 1440)];

    assert_ne!(original, resized);
}

#[test]
fn overdue_timer_enters_recovery_before_rendering_again() {
    let before_sleep = WALL;
    let wake_wall_time = wall_after(before_sleep, Duration::from_secs(30));
    let wake_time = NOW;
    let recovered = wake_time.plus(Duration { nanos: WAKE_RECOVERY_DELAY_NANOS });
    let mut schedule = RenderSchedule::default();

    schedule.events_resumed(before_sleep, before(wake_time, Duration::from_secs(30)));
    schedule.events_resumed(wake_wall_time, wake_time);

    assert!(!schedule.can_render(wake_time));
    assert!(!schedule.can_render(before(recovered, Duration::from_millis(1))));
    assert!(schedule.take_reconfigure(recovered));
    assert!(schedule.can_render(recovered));
    assert!(!schedule.take_reconfigure(recovered));
}

#[test]
fn normally_elapsed_timer_does_not_enter_recovery() {
    let first_wall_time = WALL;
    let next_wall_time = wall_after(first_wall_time, Duration::from_millis(10));
    let wake_time = NOW;
    let mut schedule = RenderSchedule::default();

    schedule.events_resumed(first_wall_time, before(wake_time, Duration::from_millis(10)));
    schedule.events_resumed(next_wall_time, wake_time);

    assert!(schedule.can_render(wake_time));
    assert!(!schedule.take_reconfigure(wake_time));
}

#[test]
fn occluded_window_does_not_render() {
    let now = NOW;
    let mut schedule = RenderSchedule::default();

    schedule.set_occluded(true);
    assert!(!schedule.can_render(now));

    schedule.set_occluded(false);
    assert!(schedule.can_render(now));
    assert!(schedule.take_reconfigure(now));
}

#[test]
fn a_gap_of_exactly_two_seconds_is_a_wake_up() {
    let mut short = RenderSchedule::default();
    short.events_resumed(WALL, NOW);
    short.events_resumed(wall_after(WALL, Duration::from_millis(1_999)), NOW);
    assert!(short.can_render(NOW));

    let mut long = RenderSchedule::default();
    long.events_resumed(WALL, NOW);
    long.events_resumed(wall_after(WALL, Duration::from_secs(2)), NOW);
    assert_eq!(long.recover_at, Some(NOW.plus(Duration::from_secs(1))));
    assert!(!long.can_render(NOW));
}

#[test]
fn a_wall_clock_that_goes_backwards_is_no_wake_up() {
    let mut schedule = RenderSchedule::default();
    schedule.events_resumed(WALL, NOW);
    schedule.events_resumed(SystemTime { nanos: -5 }, NOW);
    assert_eq!(schedule.last_active, Some(SystemTime { nanos: -5 }));
    assert!(schedule.can_render(NOW));
    assert!(!schedule.take_reconfigure(NOW));
}

#[test]
fn wall_clock_spans_cross_the_epoch() {
    let early = SystemTime { nanos: i128::MIN };
    let late = SystemTime { nanos: i128::MAX };
    assert_eq!(late.duration_since(early), Some(Duration { nanos: u128::MAX }));
    assert_eq!(early.duration_since(late), None);
    let negative = SystemTime { nanos: -10 };
    assert_eq!(negative.duration_since(SystemTime { nanos: -30 }), Some(Duration { nanos: 20 }));
    assert_eq!(SystemTime { nanos: 3 }.duration_since(negative), Some(Duration { nanos: 13 }));
}

#[test]
fn uncovering_during_a_recovery_waits_for_its_end() {
    let mut schedule = RenderSchedule::default();
    schedule.events_resumed(WALL, NOW);
    schedule.events_resumed(wall_after(WALL, Duration::from_secs(60)), NOW);
    schedule.set_occluded(true);
    let recovered = NOW.plus(Duration::from_secs(1));
    assert!(!schedule.can_render(recovered));
    schedule.set_occluded(false);
    assert!(!schedule.take_reconfigure(NOW));
    assert!(schedule.take_reconfigure(recovered));
}

#[test]
fn displays_without_a_name_come_first_and_names_go_by_bytes() {
    let mut named = unnamed(0);
    named.name = Some("Z".to_string());
    let mut longer = unnamed(0);
    longer.name = Some("Za".to_string());
    let mut accented = unnamed(0);
    accented.name = Some("Éa".to_string());
    let layout =
        available_displays(vec![accented.clone(), longer.clone(), unnamed(0), named.clone()]);
    assert_eq!(layout, vec![unnamed(0), named, longer, accented]);
}

#[test]
fn sorting_keeps_equal_displays_and_empty_lists() {
    assert_eq!(available_displays(Vec::new()), Vec::<DisplayGeometry>::new());
    let twice = available_displays(vec![unnamed(5), unnamed(-5), unnamed(5)]);
    assert_eq!(twice, vec![unnamed(-5), unnamed(5), unnamed(5)]);
}

#[test]
fn width_and_height_decide_before_the_name() {
    let wide = display("A", 0, 0, 300, 100);
    let tall = display("B", 0, 0, 200, 400);
    let flat = display("C", 0, 0, 200, 300);
    let layout = available_displays(vec![wide.clone(), tall.clone(), flat.clone()]);
    assert_eq!(layout, vec![flat, tall, wide]);
}

#[test]
fn the_ordinary_window_has_a_default_and_a_smallest_size() {
    let windows = window_attributes(WindowMode::Window, &vec![display("A", 1, 2, 3, 4)]).unwrap();
    assert_eq!(windows.len(), 1);
    assert_eq!(windows[0].title, "Scatter");
    assert!(windows[0].decorations && windows[0].resizable && windows[0].active);
    assert_eq!(windows[0].position, None);
    assert_eq!(windows[0].inner_size, InnerSize::Logical { width: 960, height: 640 });
    assert_eq!(windows[0].min_inner_size, Some((480, 320)));
}

#[test]
fn wallpaper_windows_cover_the_displays() {
    let displays = vec![display("Left", -1920, 0, 1920, 1080), unnamed(0)];
    let windows = window_attributes(WindowMode::Wallpaper, &displays).unwrap();
    assert_eq!(windows.len(), 2);
    assert_eq!(windows[0].title, "Scatter Wallpaper — Left");
    assert_eq!(windows[1].title, "Scatter Wallpaper — Display 2");
    assert!(!windows[1].decorations && !windows[1].resizable && !windows[1].active);
    assert_eq!(windows[0].position, Some(PhysicalPosition { x: -1920, y: 0 }));
    assert_eq!(
        windows[0].inner_size,
        InnerSize::Physical(PhysicalSize { width: 1920, height: 1080 })
    );
    assert_eq!(windows[0].min_inner_size, None);
}

#[test]
fn planned_windows_follow_the_sorted_layout() {
    let left = display("Left", -1920, 0, 1920, 1080);
    let primary = display("Primary", 0, 0, 2560, 1440);
    let plan =
        plan_windows(WindowMode::Wallpaper, vec![primary.clone(), unnamed(0), left.clone()])
            .ok()
            .unwrap();
    assert_eq!(plan.layout, vec![left.clone(), unnamed(0), primary.clone()]);
    let titles: Vec<&str> = plan.windows.iter().map(|window| window.title.as_str()).collect();
    assert_eq!(
        titles,
        [
            "Scatter Wallpaper — Left",
            "Scatter Wallpaper — Display 2",
            "Scatter Wallpaper — Primary"
        ]
    );
    for (window, display) in plan.windows.iter().zip(&plan.layout) {
        assert_eq!(window.position, Some(display.position));
        assert_eq!(window.inner_size, InnerSize::Physical(display.size));
    }
}

#[test]
fn the_ordinary_window_is_planned_without_a_layout() {
    for enumerated in [Vec::new(), vec![unnamed(3)]] {
        let plan = plan_windows(WindowMode::Window, enumerated).ok().unwrap();
        assert_eq!(plan.windows.len(), 1);
        assert_eq!(plan.windows[0].title, "Scatter");
        assert!(plan.layout.is_empty());
    }
    let none = plan_windows(WindowMode::Wallpaper, Vec::new());
    assert!(matches!(none, Err(BuildError::NoDisplay)));
}

#[test]
fn display_numbers_have_all_their_digits() {
    let displays: Vec<DisplayGeometry> = (0..120).map(unnamed).collect();
    let windows = window_attributes(WindowMode::Wallpaper, &displays).unwrap();
    assert_eq!(windows[8].title, "Scatter Wallpaper — Display 9");
    assert_eq!(windows[9].title, "Scatter Wallpaper — Display 10");
    assert_eq!(windows[119].title, "Scatter Wallpaper — Display 120");
}

#[test]
fn wallpaper_mode_needs_a_display_and_macos() {
    let none = window_attributes(WindowMode::Wallpaper, &Vec::new());
    assert_eq!(none, Err(BuildError::NoDisplay));
    assert_eq!(BuildError::NoDisplay.message(), "wallpaper mode requires an attached display");
    let refused = check_platform(WindowMode::Wallpaper, false);
    assert_eq!(refused, Err(BuildError::UnsupportedPlatform));
    assert_eq!(
        BuildError::UnsupportedPlatform.message(),
        "wallpaper mode is only supported on macOS"
    );
    assert_eq!(check_platform(WindowMode::Wallpaper, true), Ok(()));
    assert_eq!(check_platform(WindowMode::Window, false), Ok(()));
}

#[test]
fn a_failed_start_leaves_the_program_without_windows() {
    let mut app: App<String, u32> = App::new(WindowMode::Window, runtime());
    assert!(app.resumed());
    assert_eq!(app.initialize_renderers(Err("no gpu")), Err("no gpu"));
    assert!(app.resumed());
    let build = Build { renderers: vec![ManagedRenderer::new(7)], layout: Vec::new() };
    assert_eq!(app.initialize_renderers::<&str>(Ok(build)), Ok(()));
    assert!(!app.resumed());
    assert_eq!(app.renderers[0].renderer, 7);
}

#[test]
fn a_reload_replaces_everything_or_nothing() {
    let mut app = wallpaper_app(&["A", "B"]);
    let mut next = AppConfig::default();
    next.rendering.projection = ProjectionKind::Equirectangular;
    next.refresh.reload_check_interval_ms = 250;
    let later = NOW.plus(Duration::from_secs(9));

    assert_eq!(app.refresh_config(next, Err("lost"), later), Err("lost"));
    assert_eq!(*app.runtime_config.config(), AppConfig::default());
    assert_eq!(app.renderers.len(), 2);

    let build = Build {
        renderers: vec![ManagedRenderer::new(40)],
        layout: vec![display("C", 0, 0, 10, 10)],
    };
    assert_eq!(app.refresh_config::<&str>(next, Ok(build), later), Ok(()));
    assert_eq!(*app.runtime_config.config(), next);
    assert_eq!(app.runtime_config.next_check_at(), later.plus(Duration::from_millis(250)));
    assert_eq!(app.renderers[0].renderer, 40);
    assert_eq!(app.wallpaper_layout.len(), 1);
    assert_eq!(app.runtime_config.last_seen_bytes, b"old".to_vec());
}

#[test]
fn the_watch_runs_through_the_program() {
    let mut app = wallpaper_app(&["A"]);
    let due = NOW.plus(Duration::from_millis(500));
    let early = before(due, Duration { nanos: 1 });
    assert!(matches!(app.watch_config(RefreshEvent::Tick(early)), RefreshAction::Idle));
    assert!(matches!(app.watch_config(RefreshEvent::Tick(due)), RefreshAction::ReadFile));
    let error = LoadError::Invalid(ConfigError::Latitude);
    let action = app.watch_config(RefreshEvent::ConfigLoaded(Err(error)));
    assert!(matches!(
        action,
        RefreshAction::Reject(LoadError::Invalid(ConfigError::Latitude))
    ));
}

#[test]
fn the_layout_is_rebuilt_only_when_it_differs() {
    let app = wallpaper_app(&["A", "B"]);
    let first = display("A", 0, 0, 1920, 1080);
    let second = display("B", 1920, 0, 1920, 1080);
    assert_eq!(app.refresh_wallpaper_layout(Vec::new()), LayoutChange::Keep);
    assert_eq!(
        app.refresh_wallpaper_layout(vec![second.clone(), first.clone()]),
        LayoutChange::Keep
    );
    assert_eq!(
        app.refresh_wallpaper_layout(vec![first.clone()]),
        LayoutChange::Rebuild { from: 2, to: 1 }
    );
    let mut renamed = second.clone();
    renamed.name = None;
    assert_eq!(
        app.refresh_wallpaper_layout(vec![renamed, first.clone()]),
        LayoutChange::Rebuild { from: 2, to: 2 }
    );
    let window: App<String, u32> = App::new(WindowMode::Window, runtime());
    assert_eq!(window.refresh_wallpaper_layout(vec![first]), LayoutChange::Keep);
}

#[test]
fn events_reach_the_window_they_belong_to() {
    let mut app = wallpaper_app(&["A", "B"]);
    let size = PhysicalSize { width: 5, height: 6 };
    let delta = MouseScrollDelta::PixelDelta { x: 1, y: 2 };
    let mut act = |event| app.window_event(Some(1), event, NOW);
    assert_eq!(act(WindowEvent::CloseRequested), WindowAction::Exit);
    assert_eq!(act(WindowEvent::Resized(size)), WindowAction::Resize(size));
    assert_eq!(act(WindowEvent::MouseWheel(delta)), WindowAction::Scroll(delta));
    assert_eq!(act(WindowEvent::RedrawRequested), WindowAction::Render);
    assert_eq!(act(WindowEvent::Other), WindowAction::Nothing);
    for pressed in [true, false] {
        let escape = WindowEvent::KeyboardInput { key: KeyCode::Escape, pressed };
        assert_eq!(act(escape), WindowAction::Exit);
    }
    let press = WindowEvent::KeyboardInput { key: KeyCode::Comma, pressed: true };
    assert_eq!(act(press), WindowAction::Key(KeyCode::Comma));
    let release = WindowEvent::KeyboardInput { key: KeyCode::Comma, pressed: false };
    assert_eq!(act(release), WindowAction::Nothing);
    assert_eq!(act(WindowEvent::Occluded(true)), WindowAction::Nothing);
    assert_eq!(act(WindowEvent::RedrawRequested), WindowAction::Nothing);

    assert!(!app.renderers[0].render_schedule.occluded);
    assert!(app.renderers[1].render_schedule.occluded);
    assert_eq!(app.window_event(None, WindowEvent::CloseRequested, NOW), WindowAction::Nothing);
}

#[test]
fn a_wake_up_pauses_every_window() {
    let mut app = wallpaper_app(&["A", "B"]);
    app.new_events(WALL, NOW);
    app.new_events(wall_after(WALL, Duration::from_secs(10)), NOW);
    let waiting = plan(&mut app, NOW);
    assert_eq!(waiting.frames.len(), 2);
    assert!(waiting.frames.iter().all(|frame| !frame.resize && !frame.redraw));

    let recovered = NOW.plus(Duration::from_secs(1));
    let waiting = plan(&mut app, recovered);
    assert!(waiting.frames.iter().all(|frame| frame.resize && frame.redraw));
    let waiting = plan(&mut app, recovered);
    assert!(waiting.frames.iter().all(|frame| !frame.resize && frame.redraw));
}

#[test]
fn the_wait_ends_with_the_next_frame_or_the_next_look() {
    let mut app = wallpaper_app(&["A"]);
    assert_eq!(plan(&mut app, NOW).wake_at, NOW.plus(Duration::from_millis(500)));
    app.runtime_config.next_check_at = NOW.plus(Duration::from_secs(40));
    assert_eq!(plan(&mut app, NOW).wake_at, NOW.plus(Duration::from_secs(1)));
}

#[test]
fn a_failed_layout_ends_the_program_without_a_frame() {
    let mut app = wallpaper_app(&["A"]);
    app.window_event(Some(0), WindowEvent::Occluded(true), NOW);
    app.window_event(Some(0), WindowEvent::Occluded(false), NOW);
    assert!(matches!(app.about_to_wait(&Err("no display"), NOW), BeforeWait::Exit));
    assert!(app.renderers[0].render_schedule.reconfigure);
    assert!(plan(&mut app, NOW).frames[0].resize);
    assert!(!app.renderers[0].render_schedule.reconfigure);
}

#[test]
fn windows_that_cannot_be_made_end_the_program() {
    assert_eq!(after_build::<&str>(&Ok(())), AfterBuild::Continue);
    assert_eq!(after_build(&Err("no gpu")), AfterBuild::Exit);
}

#[test]
fn only_a_lost_surface_ends_the_program() {
    assert_eq!(after_render(RenderStatus::Presented), AfterRender::Nothing);
    assert_eq!(after_render(RenderStatus::Skip), AfterRender::Nothing);
    assert_eq!(after_render(RenderStatus::Reconfigure), AfterRender::Resize);
    assert_eq!(after_render(RenderStatus::Fatal), AfterRender::Exit);
}
