//! The windows of the program: which there are, and what happens to them.

use vstd::prelude::*;
use vstd::string::*;

use crate::config::{AppConfig, RefreshAction, RefreshEvent, RuntimeConfig};
use crate::display::{available_displays, layouts_equal, DisplayGeometry};
use crate::geometry::{PhysicalPosition, PhysicalSize};
use crate::projection::MouseScrollDelta;
use crate::renderer::{KeyCode, RenderStatus};
use crate::schedule::RenderSchedule;
use crate::text::push_decimal;
use crate::time::{Duration, Instant, SystemTime};

verus! {

/// The time between two frames.
pub const FRAME_INTERVAL_NANOS: u128 = 1_000_000_000;

/// How the program shows itself.
#[derive(Clone, Copy, Debug, PartialEq, Eq, Structural)]
pub enum WindowMode {
    /// In one ordinary window.
    Window,
    /// As the desktop background of every display.
    Wallpaper,
}

impl WindowMode {
    /// Whether the program is the desktop background.
    pub fn is_wallpaper(self) -> (wallpaper: bool)
        ensures
            wallpaper == (self is Wallpaper),
    {
        match self {
            WindowMode::Window => false,
            WindowMode::Wallpaper => true,
        }
    }
}

/// Why windows cannot be made.
#[derive(Clone, Copy, Debug, PartialEq, Eq, Structural)]
pub enum BuildError {
    NoDisplay,
    UnsupportedPlatform,
}

impl BuildError {
    /// The reason in words.
    pub open spec fn spec_message(self) -> Seq<char> {
        match self {
            BuildError::NoDisplay => "wallpaper mode requires an attached display"@,
            BuildError::UnsupportedPlatform => "wallpaper mode is only supported on macOS"@,
        }
    }

    /// The reason in words.
    pub fn message(self) -> (message: &'static str)
        ensures
            message@ == self.spec_message(),
    {
        match self {
            BuildError::NoDisplay => "wallpaper mode requires an attached display",
            BuildError::UnsupportedPlatform => "wallpaper mode is only supported on macOS",
        }
    }
}

/// The size that a window is made with.
#[derive(Clone, Copy, Debug, PartialEq, Eq, Structural)]
pub enum InnerSize {
    Physical(PhysicalSize),
    Logical { width: u32, height: u32 },
}

/// What a window is made with.
#[derive(Debug, PartialEq, Eq)]
pub struct WindowAttributes {
    pub title: String,
    pub decorations: bool,
    pub resizable: bool,
    pub active: bool,
    pub position: Option<PhysicalPosition>,
    pub inner_size: InnerSize,
    /// The smallest size in logical pixels.
    pub min_inner_size: Option<(u32, u32)>,
}

impl WindowAttributes {
    /// The ordinary window.
    pub open spec fn is_ordinary(self) -> bool {
        &&& self.title@ == "Scatter"@
        &&& self.decorations
        &&& self.resizable
        &&& self.active
        &&& self.position is None
        &&& self.inner_size == InnerSize::Logical { width: 960, height: 640 }
        &&& self.min_inner_size == Some((480u32, 320u32))
    }

    /// The window that covers the display listed at `index`, from 0.
    pub open spec fn covers(self, display: DisplayGeometry, index: int) -> bool {
        &&& self.title@ == wallpaper_title(display, index)
        &&& !self.decorations
        &&& !self.resizable
        &&& !self.active
        &&& self.position == Some(display.position)
        &&& self.inner_size == InnerSize::Physical(display.size)
        &&& self.min_inner_size is None
    }
}

/// The title of the window on a display: its name, or its number counted from 1.
pub open spec fn wallpaper_title(display: DisplayGeometry, index: int) -> Seq<char> {
    "Scatter Wallpaper — "@ + match display.name {
        Some(name) => name@,
        None => "Display "@ + crate::text::decimal((index + 1) as nat),
    }
}

/// Makes a window possible only where the mode is supported.
pub fn check_platform(window_mode: WindowMode, is_macos: bool) -> (checked: Result<(), BuildError>)
    ensures
        checked == if window_mode is Wallpaper && !is_macos {
            Err(BuildError::UnsupportedPlatform)
        } else {
            Ok(())
        },
{
    if window_mode.is_wallpaper() && !is_macos {
        Err(BuildError::UnsupportedPlatform)
    } else {
        Ok(())
    }
}

/// The window that covers a display.
fn wallpaper_attributes(display: &DisplayGeometry, index: usize) -> (attributes: WindowAttributes)
    requires
        index < usize::MAX,
    ensures
        attributes.covers(*display, index as int),
{
    let mut title = String::new();
    title.append("Scatter Wallpaper — ");
    match &display.name {
        Some(name) => {
            title.append(name.as_str());
        },
        None => {
            title.append("Display ");
            push_decimal(&mut title, (index + 1) as u64);
        },
    }
    assert(title@ == wallpaper_title(*display, index as int));
    WindowAttributes {
        title,
        decorations: false,
        resizable: false,
        active: false,
        position: Some(display.position),
        inner_size: InnerSize::Physical(display.size),
        min_inner_size: None,
    }
}

/// The windows to make: one ordinary window, or one on each of the displays.
pub fn window_attributes(
    window_mode: WindowMode,
    displays: &Vec<DisplayGeometry>,
) -> (windows: Result<Vec<WindowAttributes>, BuildError>)
    ensures
        window_mode is Wallpaper && displays@.len() == 0 ==> windows == Err::<
            Vec<WindowAttributes>,
            BuildError,
        >(BuildError::NoDisplay),
        window_mode is Wallpaper && displays@.len() > 0 ==> {
            &&& windows matches Ok(made)
            &&& made@.len() == displays@.len()
            &&& forall|i: int|
                0 <= i < made@.len() ==> (#[trigger] made@[i]).covers(displays@[i], i)
        },
        window_mode is Window ==> {
            &&& windows matches Ok(made)
            &&& made@.len() == 1
            &&& made@[0].is_ordinary()
        },
{
    let mut made: Vec<WindowAttributes> = Vec::new();
    if window_mode.is_wallpaper() {
        if displays.is_empty() {
            return Err(BuildError::NoDisplay);
        }
        let mut i: usize = 0;
        while i < displays.len()
            invariant
                i <= displays@.len(),
                made@.len() == i,
                forall|k: int| 0 <= k < i ==> (#[trigger] made@[k]).covers(displays@[k], k),
            decreases displays@.len() - i,
        {
            made.push(wallpaper_attributes(&displays[i], i));
            i = i + 1;
        }
    } else {
        let mut title = String::new();
        title.append("Scatter");
        assert(title@ == "Scatter"@);
        made.push(
            WindowAttributes {
                title,
                decorations: true,
                resizable: true,
                active: true,
                position: None,
                inner_size: InnerSize::Logical { width: 960, height: 640 },
                min_inner_size: Some((480, 320)),
            },
        );
    }
    Ok(made)
}

/// The windows to make, and the displays that they are for.
pub struct WindowPlan {
    pub windows: Vec<WindowAttributes>,
    /// The displays in order; none for an ordinary window.
    pub layout: Vec<DisplayGeometry>,
}

impl WindowPlan {
    /// The plan of a mode, in a system that lists these displays: one ordinary window without a
    /// layout, or the displays in order with a window on each.
    pub open spec fn suits(
        self,
        window_mode: WindowMode,
        enumerated: Seq<DisplayGeometry>,
    ) -> bool {
        match window_mode {
            WindowMode::Window => {
                &&& self.windows@.len() == 1
                &&& self.windows@[0].is_ordinary()
                &&& self.layout@.len() == 0
            },
            WindowMode::Wallpaper => {
                &&& crate::display::models(self.layout@) == crate::display::arranged(
                    crate::display::models(enumerated),
                )
                &&& self.layout@.len() == enumerated.len()
                &&& self.windows@.len() == self.layout@.len()
                &&& forall|i: int|
                    0 <= i < self.windows@.len() ==> (#[trigger] self.windows@[i]).covers(
                        self.layout@[i],
                        i,
                    )
            },
        }
    }
}

/// Plans the windows of a mode, in a system that lists these displays; as a desktop background
/// the program needs at least one.
pub fn plan_windows(window_mode: WindowMode, enumerated: Vec<DisplayGeometry>) -> (plan: Result<
    WindowPlan,
    BuildError,
>)
    ensures
        match plan {
            Ok(made) => made.suits(window_mode, enumerated@),
            Err(error) => error == BuildError::NoDisplay,
        },
        plan is Err <==> window_mode is Wallpaper && enumerated@.len() == 0,
{
    let layout = if window_mode.is_wallpaper() {
        let displays = available_displays(enumerated);
        proof {
            crate::display::lemma_same_contents_same_length(
                crate::display::models(displays@),
                crate::display::models(enumerated@),
            );
        }
        displays
    } else {
        Vec::new()
    };
    match window_attributes(window_mode, &layout) {
        Ok(windows) => Ok(WindowPlan { windows, layout }),
        Err(error) => Err(error),
    }
}

/// A renderer with its schedule.
pub struct ManagedRenderer<R> {
    pub renderer: R,
    pub render_schedule: RenderSchedule,
}

impl<R> ManagedRenderer<R> {
    /// A renderer that has just been made.
    pub fn new(renderer: R) -> (managed: ManagedRenderer<R>)
        ensures
            managed.renderer == renderer,
            managed.render_schedule == RenderSchedule::initial(),
    {
        ManagedRenderer { renderer, render_schedule: RenderSchedule::default() }
    }
}

/// The renderers that were made, and the displays they are on.
pub struct Build<R> {
    pub renderers: Vec<ManagedRenderer<R>>,
    pub layout: Vec<DisplayGeometry>,
}

/// The renderers belong to the layout: one on each display, or a single one without a layout.
pub open spec fn matches_mode<R>(
    window_mode: WindowMode,
    renderers: Seq<ManagedRenderer<R>>,
    layout: Seq<DisplayGeometry>,
) -> bool {
    match window_mode {
        WindowMode::Window => renderers.len() == 1 && layout.len() == 0,
        WindowMode::Wallpaper => renderers.len() == layout.len() && layout.len() > 0,
    }
}

/// What happens to a window.
#[derive(Clone, Copy, Debug, PartialEq, Eq, Structural)]
pub enum WindowEvent {
    CloseRequested,
    KeyboardInput { key: KeyCode, pressed: bool },
    Resized(PhysicalSize),
    MouseWheel(MouseScrollDelta),
    Occluded(bool),
    RedrawRequested,
    Other,
}

/// What is to be done about it.
#[derive(Clone, Copy, Debug, PartialEq, Eq, Structural)]
pub enum WindowAction {
    Nothing,
    Exit,
    Resize(PhysicalSize),
    Scroll(MouseScrollDelta),
    Key(KeyCode),
    Render,
}

/// What is to be done after a frame.
#[derive(Clone, Copy, Debug, PartialEq, Eq, Structural)]
pub enum AfterRender {
    Nothing,
    /// Configure the surface with the window's present size.
    Resize,
    /// Leave the program: the surface is gone.
    Exit,
}

/// What a frame's outcome asks for.
pub open spec fn spec_after_render(status: RenderStatus) -> AfterRender {
    match status {
        RenderStatus::Presented => AfterRender::Nothing,
        RenderStatus::Skip => AfterRender::Nothing,
        RenderStatus::Reconfigure => AfterRender::Resize,
        RenderStatus::Fatal => AfterRender::Exit,
    }
}

/// What a frame's outcome asks for.
pub fn after_render(status: RenderStatus) -> (action: AfterRender)
    ensures
        action == spec_after_render(status),
{
    match status {
        RenderStatus::Presented => AfterRender::Nothing,
        RenderStatus::Skip => AfterRender::Nothing,
        RenderStatus::Reconfigure => AfterRender::Resize,
        RenderStatus::Fatal => AfterRender::Exit,
    }
}

/// What is to be done after windows were to be made.
#[derive(Clone, Copy, Debug, PartialEq, Eq, Structural)]
pub enum AfterBuild {
    Continue,
    /// Leave the program: it has not got the windows that it needs.
    Exit,
}

/// What an attempt to make windows asks for.
pub open spec fn spec_after_build<E>(done: Result<(), E>) -> AfterBuild {
    match done {
        Ok(_) => AfterBuild::Continue,
        Err(_) => AfterBuild::Exit,
    }
}

/// What an attempt to make windows asks for.
pub fn after_build<E>(done: &Result<(), E>) -> (next: AfterBuild)
    ensures
        next == spec_after_build(*done),
{
    match done {
        Ok(_) => AfterBuild::Continue,
        Err(_) => AfterBuild::Exit,
    }
}

/// What a renderer is to do before the program waits.
#[derive(Clone, Copy, Debug, PartialEq, Eq, Structural)]
pub struct FrameRequest {
    /// Configure the surface with the window's present size.
    pub resize: bool,
    /// Ask for a frame.
    pub redraw: bool,
}

/// What is to be done before the program waits, for each renderer, and until when it waits.
pub struct WaitPlan {
    pub frames: Vec<FrameRequest>,
    pub wake_at: Instant,
}

/// How the program goes on when there are no more events.
pub enum BeforeWait {
    /// Leave the program: no frame is asked for, and there is nothing to wait for.
    Exit,
    Wait(WaitPlan),
}

/// What is to be done about the attached displays.
#[derive(Clone, Copy, Debug, PartialEq, Eq, Structural)]
pub enum LayoutChange {
    /// Leave the windows as they are.
    Keep,
    /// Make the windows anew.
    Rebuild { from: usize, to: usize },
}

/// The program.
pub struct App<P, R> {
    pub renderers: Vec<ManagedRenderer<R>>,
    pub window_mode: WindowMode,
    /// The displays that have a window, in order; none in an ordinary window.
    pub wallpaper_layout: Vec<DisplayGeometry>,
    pub runtime_config: RuntimeConfig<P>,
}

/// What an event does to the schedule of its window.
pub open spec fn schedule_after(schedule: RenderSchedule, event: WindowEvent) -> RenderSchedule {
    match event {
        WindowEvent::Occluded(occluded) => schedule.after_occlusion(occluded),
        _ => schedule,
    }
}

/// What is to be done about an event of a window with this schedule.
pub open spec fn action_on(
    schedule: RenderSchedule,
    event: WindowEvent,
    now: Instant,
) -> WindowAction {
    match event {
        WindowEvent::CloseRequested => WindowAction::Exit,
        WindowEvent::KeyboardInput { key, pressed } => if key is Escape {
            WindowAction::Exit
        } else if pressed {
            WindowAction::Key(key)
        } else {
            WindowAction::Nothing
        },
        WindowEvent::Resized(size) => WindowAction::Resize(size),
        WindowEvent::MouseWheel(delta) => WindowAction::Scroll(delta),
        WindowEvent::Occluded(_) => WindowAction::Nothing,
        WindowEvent::RedrawRequested => if schedule.renderable(now) {
            WindowAction::Render
        } else {
            WindowAction::Nothing
        },
        WindowEvent::Other => WindowAction::Nothing,
    }
}

impl<P, R> App<P, R> {
    /// A valid configuration runs; there are no windows yet, or just those of the mode; and every
    /// schedule is a proper one.
    pub open spec fn wf(self) -> bool {
        &&& self.runtime_config.wf()
        &&& self.renderers@.len() == 0 || matches_mode(
            self.window_mode,
            self.renderers@,
            self.wallpaper_layout@,
        )
        &&& forall|i: int|
            0 <= i < self.renderers@.len() ==> (#[trigger] self.renderers@[i]).render_schedule.wf()
    }

    /// Everything but the schedules is as in `other`.
    pub open spec fn same_but_schedules(self, other: App<P, R>) -> bool {
        &&& self.window_mode == other.window_mode
        &&& self.wallpaper_layout == other.wallpaper_layout
        &&& self.runtime_config == other.runtime_config
        &&& self.renderers@.len() == other.renderers@.len()
        &&& forall|i: int|
            0 <= i < self.renderers@.len() ==> (#[trigger] self.renderers@[i]).renderer
                == other.renderers@[i].renderer
    }

    /// The renderers that were made can take over.
    pub open spec fn accepts_build(self, build: Build<R>) -> bool {
        &&& matches_mode(self.window_mode, build.renderers@, build.layout@)
        &&& forall|i: int|
            0 <= i < build.renderers@.len() ==> (
            #[trigger] build.renderers@[i]).render_schedule.wf()
    }

    /// What is to be done before a wait at `now`: the surfaces that are configured again, the
    /// windows that ask for a frame, and the end of the wait.
    pub open spec fn plans(self, plan: WaitPlan, now: Instant) -> bool {
        &&& plan.frames@.len() == self.renderers@.len()
        &&& forall|i: int|
            0 <= i < plan.frames@.len() ==> {
                let schedule = self.renderers@[i].render_schedule;
                &&& (#[trigger] plan.frames@[i]).resize == schedule.reconfigures(now)
                &&& plan.frames@[i].redraw == schedule.renderable(now)
            }
        &&& plan.wake_at.nanos == if now.nanos + FRAME_INTERVAL_NANOS
            <= self.runtime_config.next_check_at.nanos {
            now.nanos + FRAME_INTERVAL_NANOS
        } else {
            self.runtime_config.next_check_at.nanos as int
        }
    }

    /// The program before it has windows.
    pub fn new(window_mode: WindowMode, runtime_config: RuntimeConfig<P>) -> (app: App<P, R>)
        ensures
            app.renderers@.len() == 0,
            app.wallpaper_layout@.len() == 0,
            app.window_mode == window_mode,
            app.runtime_config == runtime_config,
            runtime_config.wf() ==> app.wf(),
    {
        App {
            renderers: Vec::new(),
            window_mode,
            wallpaper_layout: Vec::new(),
            runtime_config,
        }
    }

    /// Whether windows have to be made when the program is resumed.
    pub fn resumed(&self) -> (initializes: bool)
        ensures
            initializes == (self.renderers@.len() == 0),
    {
        self.renderers.is_empty()
    }

    /// Takes over the renderers that were made; an error leaves everything as it was.
    pub fn initialize_renderers<E>(&mut self, built: Result<Build<R>, E>) -> (done: Result<(), E>)
        requires
            old(self).wf(),
            built matches Ok(build) ==> old(self).accepts_build(build),
        ensures
            match built {
                Ok(build) => {
                    &&& done == Ok::<(), E>(())
                    &&& final(self).renderers == build.renderers
                    &&& final(self).wallpaper_layout == build.layout
                    &&& final(self).window_mode == old(self).window_mode
                    &&& final(self).runtime_config == old(self).runtime_config
                },
                Err(error) => done == Err::<(), E>(error) && *final(self) == *old(self),
            },
            final(self).wf(),
    {
        match built {
            Ok(build) => {
                self.renderers = build.renderers;
                self.wallpaper_layout = build.layout;
                Ok(())
            },
            Err(error) => Err(error),
        }
    }

    /// One step of the watch on the configuration file. It changes nothing that runs.
    pub fn watch_config(&mut self, event: RefreshEvent) -> (action: RefreshAction)
        requires
            old(self).runtime_config.accepts(event),
        ensures
            action == old(self).runtime_config.action_on(event),
            final(self).runtime_config.path == old(self).runtime_config.path,
            final(self).runtime_config.config == old(self).runtime_config.config,
            final(self).runtime_config.last_seen_bytes@ == old(self).runtime_config.bytes_after(
                event,
            ),
            final(self).runtime_config.next_check_at
                == old(self).runtime_config.next_check_after(event),
            final(self).renderers == old(self).renderers,
            final(self).window_mode == old(self).window_mode,
            final(self).wallpaper_layout == old(self).wallpaper_layout,
            old(self).wf() ==> final(self).wf(),
            action matches RefreshAction::Offer(config) ==> config.valid(),
    {
        self.runtime_config.refresh_if_changed(event)
    }

    /// Runs an offered configuration once renderers have been made for it; where they could not be
    /// made, the windows and the configuration stay as they are.
    pub fn refresh_config<E>(
        &mut self,
        next: AppConfig,
        built: Result<Build<R>, E>,
        now: Instant,
    ) -> (applied: Result<(), E>)
        requires
            old(self).wf(),
            next.valid(),
            RuntimeConfig::<P>::can_check_after(next, now),
            built matches Ok(build) ==> old(self).accepts_build(build),
        ensures
            match built {
                Ok(build) => {
                    &&& applied == Ok::<(), E>(())
                    &&& final(self).renderers == build.renderers
                    &&& final(self).wallpaper_layout == build.layout
                    &&& final(self).window_mode == old(self).window_mode
                    &&& final(self).runtime_config.config == next
                    &&& final(self).runtime_config.next_check_at
                        == RuntimeConfig::<P>::check_after(next, now)
                    &&& final(self).runtime_config.path == old(self).runtime_config.path
                    &&& final(self).runtime_config.last_seen_bytes
                        == old(self).runtime_config.last_seen_bytes
                },
                Err(error) => applied == Err::<(), E>(error) && *final(self) == *old(self),
            },
            final(self).wf(),
    {
        match built {
            Ok(build) => {
                self.renderers = build.renderers;
                self.wallpaper_layout = build.layout;
                self.runtime_config.apply(next, now);
                Ok(())
            },
            Err(error) => Err(error),
        }
    }

    /// Decides about the displays that the system lists. While it lists none the windows stay, for
    /// the list can be empty for a moment; otherwise they are made anew as soon as the layout
    /// differs.
    pub fn refresh_wallpaper_layout(&self, enumerated: Vec<DisplayGeometry>) -> (change:
        LayoutChange)
        ensures
            change == if self.window_mode is Window || enumerated@.len() == 0
                || crate::display::arranged(crate::display::models(enumerated@))
                == crate::display::models(self.wallpaper_layout@) {
                LayoutChange::Keep
            } else {
                LayoutChange::Rebuild {
                    from: self.wallpaper_layout.len(),
                    to: enumerated.len(),
                }
            },
    {
        if !self.window_mode.is_wallpaper() {
            return LayoutChange::Keep;
        }
        if enumerated.is_empty() {
            return LayoutChange::Keep;
        }
        let to: usize = enumerated.len();
        let layout = available_displays(enumerated);
        if layouts_equal(&layout, &self.wallpaper_layout) {
            LayoutChange::Keep
        } else {
            LayoutChange::Rebuild { from: self.wallpaper_layout.len(), to }
        }
    }

    /// Notes a batch of events in the schedule of every window.
    pub fn new_events(&mut self, wall_time: SystemTime, monotonic_time: Instant)
        requires
            monotonic_time.nanos + crate::schedule::WAKE_RECOVERY_DELAY_NANOS <= u128::MAX,
        ensures
            final(self).same_but_schedules(*old(self)),
            forall|i: int|
                0 <= i < final(self).renderers@.len() ==> (
                #[trigger] final(self).renderers@[i]).render_schedule
                    == old(self).renderers@[i].render_schedule.after_events(
                    wall_time,
                    monotonic_time,
                ),
            old(self).wf() ==> final(self).wf(),
    {
        let mut i: usize = 0;
        while i < self.renderers.len()
            invariant
                i <= self.renderers@.len(),
                monotonic_time.nanos + crate::schedule::WAKE_RECOVERY_DELAY_NANOS <= u128::MAX,
                self.same_but_schedules(*old(self)),
                forall|k: int|
                    0 <= k < i ==> (#[trigger] self.renderers@[k]).render_schedule
                        == old(self).renderers@[k].render_schedule.after_events(
                        wall_time,
                        monotonic_time,
                    ),
                forall|k: int|
                    i <= k < self.renderers@.len() ==> (
                    #[trigger] self.renderers@[k]).render_schedule
                        == old(self).renderers@[k].render_schedule,
            decreases self.renderers@.len() - i,
        {
            self.renderers[i].render_schedule.events_resumed(wall_time, monotonic_time);
            i = i + 1;
        }
    }

    /// Reacts to an event of the window listed at `window`; an event of a window that is not
    /// there is ignored.
    pub fn window_event(
        &mut self,
        window: Option<usize>,
        event: WindowEvent,
        now: Instant,
    ) -> (action: WindowAction)
        requires
            window matches Some(index) ==> index < old(self).renderers@.len(),
        ensures
            final(self).same_but_schedules(*old(self)),
            match window {
                None => action == WindowAction::Nothing && *final(self) == *old(self),
                Some(index) => {
                    let schedule = old(self).renderers@[index as int].render_schedule;
                    &&& action == action_on(schedule, event, now)
                    &&& final(self).renderers@[index as int].render_schedule == schedule_after(
                        schedule,
                        event,
                    )
                    &&& forall|i: int|
                        0 <= i < final(self).renderers@.len() && i != index
                            ==> #[trigger] final(self).renderers@[i] == old(self).renderers@[i]
                },
            },
            old(self).wf() ==> final(self).wf(),
    {
        let index: usize = match window {
            None => {
                return WindowAction::Nothing;
            },
            Some(index) => index,
        };
        match event {
            WindowEvent::CloseRequested => WindowAction::Exit,
            WindowEvent::KeyboardInput { key, pressed } => {
                if key == KeyCode::Escape {
                    WindowAction::Exit
                } else if pressed {
                    WindowAction::Key(key)
                } else {
                    WindowAction::Nothing
                }
            },
            WindowEvent::Resized(size) => WindowAction::Resize(size),
            WindowEvent::MouseWheel(delta) => WindowAction::Scroll(delta),
            WindowEvent::Occluded(occluded) => {
                self.renderers[index].render_schedule.set_occluded(occluded);
                WindowAction::Nothing
            },
            WindowEvent::RedrawRequested => {
                if self.renderers[index].render_schedule.can_render(now) {
                    WindowAction::Render
                } else {
                    WindowAction::Nothing
                }
            },
            WindowEvent::Other => WindowAction::Nothing,
        }
    }

    /// Plans what is left to do before the program waits: surfaces that are due are configured
    /// again, windows that may render ask for a frame, and the wait ends with the next frame or
    /// the next look at the configuration file, whichever comes first. Where the windows could
    /// not be `refreshed` for the attached displays, the program is left instead.
    pub fn about_to_wait<E>(&mut self, refreshed: &Result<(), E>, now: Instant) -> (step:
        BeforeWait)
        requires
            refreshed is Ok ==> now.nanos + FRAME_INTERVAL_NANOS <= u128::MAX,
        ensures
            match spec_after_build(*refreshed) {
                AfterBuild::Exit => step is Exit && *final(self) == *old(self),
                AfterBuild::Continue => {
                    &&& step matches BeforeWait::Wait(plan)
                    &&& old(self).plans(plan, now)
                    &&& final(self).same_but_schedules(*old(self))
                    &&& forall|i: int|
                        0 <= i < final(self).renderers@.len() ==> (
                        #[trigger] final(self).renderers@[i]).render_schedule
                            == old(self).renderers@[i].render_schedule.after_take(now)
                },
            },
            old(self).wf() ==> final(self).wf(),
    {
        if after_build(refreshed) == AfterBuild::Exit {
            return BeforeWait::Exit;
        }
        let mut frames: Vec<FrameRequest> = Vec::new();
        let mut i: usize = 0;
        while i < self.renderers.len()
            invariant
                i <= self.renderers@.len(),
                frames@.len() == i,
                self.same_but_schedules(*old(self)),
                forall|k: int|
                    0 <= k < i ==> {
                        let schedule = old(self).renderers@[k].render_schedule;
                        &&& (#[trigger] frames@[k]).resize == schedule.reconfigures(now)
                        &&& frames@[k].redraw == schedule.renderable(now)
                    },
                forall|k: int|
                    0 <= k < i ==> (#[trigger] self.renderers@[k]).render_schedule
                        == old(self).renderers@[k].render_schedule.after_take(now),
                forall|k: int|
                    i <= k < self.renderers@.len() ==> (
                    #[trigger] self.renderers@[k]).render_schedule
                        == old(self).renderers@[k].render_schedule,
            decreases self.renderers@.len() - i,
        {
            let resize = self.renderers[i].render_schedule.take_reconfigure(now);
            let redraw = self.renderers[i].render_schedule.can_render(now);
            frames.push(FrameRequest { resize, redraw });
            i = i + 1;
        }
        let next_frame = now.plus(Duration { nanos: FRAME_INTERVAL_NANOS });
        let next_check = self.runtime_config.next_check_at();
        let wake_at = if next_frame.nanos <= next_check.nanos {
            next_frame
        } else {
            next_check
        };
        BeforeWait::Wait(WaitPlan { frames, wake_at })
    }
}

/// Every display that the system lists gets a window of its own position and size, however the
/// system lists them.
pub proof fn law_every_display_is_covered(
    plan: WindowPlan,
    enumerated: Seq<DisplayGeometry>,
    display: DisplayGeometry,
)
    requires
        plan.suits(WindowMode::Wallpaper, enumerated),
        enumerated.contains(display),
    ensures
        exists|i: int|
            0 <= i < plan.windows@.len() && (#[trigger] plan.windows@[i]).position == Some(
                display.position,
            ) && plan.windows@[i].inner_size == InnerSize::Physical(display.size),
{
    let listed = crate::display::models(enumerated);
    let layout = crate::display::models(plan.layout@);
    let from = choose|i: int| 0 <= i < enumerated.len() && enumerated[i] == display;
    assert(listed[from] == display@);
    crate::display::law_arrangement_is_the_sorted_list(listed, layout);
    crate::display::lemma_same_contents_same_members(listed, layout, display@);
    let at = choose|i: int| 0 <= i < layout.len() && layout[i] == display@;
    assert(plan.layout@[at]@ == display@);
    assert(plan.windows@[at].covers(plan.layout@[at], at));
}

/// A surface is configured again only together with a request for a frame, and doing so neither
/// holds the frame up nor leaves anything pending.
pub proof fn law_configured_surfaces_are_drawn(schedule: RenderSchedule, now: Instant)
    ensures
        schedule.reconfigures(now) ==> schedule.renderable(now),
        schedule.after_take(now).renderable(now) == schedule.renderable(now),
        !schedule.after_take(now).reconfigures(now),
{
}

/// An ordinary window has a frame, can be resized and comes to the front, at 960 by 640 and no less
/// than 480 by 320 logical pixels, wherever the system puts it.
pub proof fn law_the_ordinary_window(window: WindowAttributes)
    requires
        window.is_ordinary(),
    ensures
        window.title@ == "Scatter"@,
        window.decorations && window.resizable && window.active,
        window.position is None,
        window.inner_size == (InnerSize::Logical { width: 960, height: 640 }),
        window.min_inner_size == Some((480u32, 320u32)),
{
}

/// A window on the desktop lies exactly over its display, without a frame, and stays behind.
pub proof fn law_desktop_windows_lie_over_their_display(
    window: WindowAttributes,
    display: DisplayGeometry,
    index: int,
)
    requires
        window.covers(display, index),
    ensures
        !window.decorations && !window.resizable && !window.active,
        window.position == Some(display.position),
        window.inner_size == InnerSize::Physical(display.size),
        window.min_inner_size is None,
        window.title@ == wallpaper_title(display, index),
{
}

/// The title of a window on the desktop ends in the name of its display, or in its number among
/// the displays, from 1.
pub proof fn law_desktop_titles_name_the_display(display: DisplayGeometry, index: int)
    requires
        index >= 0,
    ensures
        ({
            let title = wallpaper_title(display, index);
            let rest = title.skip(20);
            &&& title.len() >= 20
            &&& title.take(20) == "Scatter Wallpaper — "@
            &&& display.name matches Some(name) ==> rest == name@
            &&& display.name is None ==> {
                &&& rest.len() > 8
                &&& rest.take(8) == "Display "@
                &&& crate::text::number_of(rest.skip(8)) == index + 1
            }
        }),
{
    reveal_strlit("Scatter Wallpaper — ");
    reveal_strlit("Display ");
    let title = wallpaper_title(display, index);
    let rest = title.skip(20);
    assert(title.take(20) =~= "Scatter Wallpaper — "@);
    if let Some(name) = display.name {
        assert(rest =~= name@);
    } else {
        crate::text::law_decimals_read_back((index + 1) as nat);
        assert(rest.take(8) =~= "Display "@);
        assert(rest.skip(8) =~= crate::text::decimal((index + 1) as nat));
    }
}

/// Closing a window and Escape leave the program whatever the schedule; other keys count when they
/// are pressed, sizes and wheel movements are passed on, and a frame is drawn exactly where the
/// window may render.
pub proof fn law_events_are_answered(
    schedule: RenderSchedule,
    key: KeyCode,
    pressed: bool,
    size: PhysicalSize,
    delta: MouseScrollDelta,
    occluded: bool,
    now: Instant,
)
    ensures
        action_on(schedule, WindowEvent::CloseRequested, now) == WindowAction::Exit,
        action_on(schedule, (WindowEvent::KeyboardInput { key: KeyCode::Escape, pressed }), now)
            == WindowAction::Exit,
        key !is Escape ==> action_on(
            schedule,
            (WindowEvent::KeyboardInput { key, pressed: true }),
            now,
        ) == WindowAction::Key(key),
        key !is Escape ==> action_on(
            schedule,
            (WindowEvent::KeyboardInput { key, pressed: false }),
            now,
        ) == WindowAction::Nothing,
        action_on(schedule, WindowEvent::Resized(size), now) == WindowAction::Resize(size),
        action_on(schedule, WindowEvent::MouseWheel(delta), now) == WindowAction::Scroll(delta),
        action_on(schedule, WindowEvent::Occluded(occluded), now) == WindowAction::Nothing,
        action_on(schedule, WindowEvent::Other, now) == WindowAction::Nothing,
        action_on(schedule, WindowEvent::RedrawRequested, now) is Render <==> schedule.renderable(
            now,
        ),
        action_on(schedule, WindowEvent::RedrawRequested, now) !is Render ==> action_on(
            schedule,
            WindowEvent::RedrawRequested,
            now,
        ) is Nothing,
{
}

/// Only covering or uncovering a window changes its schedule; a window draws nothing from when it
/// is covered until it is uncovered.
pub proof fn law_only_covering_changes_the_schedule(
    schedule: RenderSchedule,
    event: WindowEvent,
    now: Instant,
)
    ensures
        event !is Occluded ==> schedule_after(schedule, event) == schedule,
        event matches WindowEvent::Occluded(occluded) ==> schedule_after(schedule, event)
            == schedule.after_occlusion(occluded),
        action_on(
            schedule_after(schedule, WindowEvent::Occluded(true)),
            WindowEvent::RedrawRequested,
            now,
        ) is Nothing,
{
}

/// After a frame the surface is configured again where it does not fit any more, and the program is
/// left where it is gone; a failed attempt to make windows leaves the program too.
pub proof fn law_what_follows_a_frame_or_a_build<E>(status: RenderStatus, error: E)
    ensures
        spec_after_render(status) is Resize <==> status is Reconfigure,
        spec_after_render(status) is Exit <==> status is Fatal,
        spec_after_render(status) is Nothing <==> status is Presented || status is Skip,
        spec_after_build(Ok::<(), E>(())) is Continue,
        spec_after_build(Err::<(), E>(error)) is Exit,
{
}

/// A wait lasts at most a second, and not past the next look at the file, but no less than the
/// nearer of the two; every window that may render, and no other, asks for a frame, and is
/// configured again before it where that is pending.
pub proof fn law_waits_end_with_a_frame_or_a_look<P, R>(
    app: App<P, R>,
    plan: WaitPlan,
    now: Instant,
    at: int,
)
    requires
        app.plans(plan, now),
        0 <= at < app.renderers@.len(),
    ensures
        plan.wake_at.nanos <= now.nanos + 1_000_000_000,
        plan.wake_at.nanos <= app.runtime_config.next_check_at.nanos,
        plan.wake_at.nanos == now.nanos + 1_000_000_000 || plan.wake_at
            == app.runtime_config.next_check_at,
        plan.frames@.len() == app.renderers@.len(),
        plan.frames@[at].redraw == app.renderers@[at].render_schedule.renderable(now),
        plan.frames@[at].resize == (app.renderers@[at].render_schedule.reconfigure
            && plan.frames@[at].redraw),
{
}

/// What changes nothing but schedules keeps the mode, the layout, the configuration, and each
/// renderer in its place.
pub proof fn law_schedules_apart_everything_stays<P, R>(
    app: App<P, R>,
    other: App<P, R>,
    at: int,
)
    requires
        app.same_but_schedules(other),
        0 <= at < app.renderers@.len(),
    ensures
        app.window_mode == other.window_mode,
        app.wallpaper_layout == other.wallpaper_layout,
        app.runtime_config == other.runtime_config,
        app.renderers@.len() == other.renderers@.len(),
        app.renderers@[at].renderer == other.renderers@[at].renderer,
{
}

/// The plan of an ordinary window is that one window without a layout; a plan of the desktop has a
/// window for every display of the layout, which is the sorted list of the displays.
pub proof fn law_plans_suit_their_mode(
    plan: WindowPlan,
    enumerated: Seq<DisplayGeometry>,
    at: int,
)
    ensures
        plan.suits(WindowMode::Window, enumerated) ==> plan.windows@.len() == 1
            && plan.windows@[0].is_ordinary() && plan.layout@.len() == 0,
        plan.suits(WindowMode::Wallpaper, enumerated) ==> {
            &&& crate::display::sorted(crate::display::models(plan.layout@))
            &&& crate::display::models(plan.layout@).to_multiset() == crate::display::models(
                enumerated,
            ).to_multiset()
            &&& plan.windows@.len() == enumerated.len()
            &&& 0 <= at < plan.windows@.len() ==> plan.windows@[at].covers(plan.layout@[at], at)
        },
{
    crate::display::law_arrangement_is_the_sorted_list(
        crate::display::models(enumerated),
        crate::display::models(plan.layout@),
    );
}

} // verus!
