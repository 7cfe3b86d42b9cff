//! When a window may render, and when its surface has to be configured again.

use vstd::prelude::*;

use crate::time::{Duration, Instant, SystemTime};

verus! {

/// A gap between two events at least this long means that the machine was asleep.
pub const WAKE_LAG_THRESHOLD_NANOS: u128 = 2_000_000_000;

/// How long rendering pauses after a wake-up.
pub const WAKE_RECOVERY_DELAY_NANOS: u128 = 1_000_000_000;

/// The rendering state of one window.
#[derive(Clone, Copy, Debug, PartialEq, Eq, Structural)]
pub struct RenderSchedule {
    /// The window is fully covered.
    pub occluded: bool,
    /// The wall-clock time of the last batch of events.
    pub last_active: Option<SystemTime>,
    /// Rendering pauses until this point.
    pub recover_at: Option<Instant>,
    /// The surface has to be configured again before the next frame.
    pub reconfigure: bool,
}

impl Default for RenderSchedule {
    fn default() -> (schedule: RenderSchedule)
        ensures
            schedule == RenderSchedule::initial(),
    {
        RenderSchedule { occluded: false, last_active: None, recover_at: None, reconfigure: false }
    }
}

impl RenderSchedule {
    /// The state of a window that has just been created.
    pub open spec fn initial() -> RenderSchedule {
        RenderSchedule { occluded: false, last_active: None, recover_at: None, reconfigure: false }
    }

    /// A recovery always ends in a new configuration of the surface.
    pub open spec fn wf(self) -> bool {
        self.recover_at is Some ==> self.reconfigure
    }

    /// A batch of events at `wall_time` comes so long after the previous one that the machine
    /// must have slept in between.
    pub open spec fn wakes_at(self, wall_time: SystemTime) -> bool {
        self.last_active matches Some(last) && wall_time.nanos - last.nanos
            >= WAKE_LAG_THRESHOLD_NANOS
    }

    /// The state after a batch of events.
    pub open spec fn after_events(
        self,
        wall_time: SystemTime,
        monotonic_time: Instant,
    ) -> RenderSchedule {
        if self.wakes_at(wall_time) {
            RenderSchedule {
                last_active: Some(wall_time),
                recover_at: Some(
                    Instant { nanos: (monotonic_time.nanos + WAKE_RECOVERY_DELAY_NANOS) as u128 },
                ),
                reconfigure: true,
                ..self
            }
        } else {
            RenderSchedule { last_active: Some(wall_time), ..self }
        }
    }

    /// The state after the window has been covered or uncovered.
    pub open spec fn after_occlusion(self, occluded: bool) -> RenderSchedule {
        RenderSchedule {
            occluded,
            reconfigure: self.reconfigure || (self.occluded && !occluded),
            ..self
        }
    }

    /// The window may render at `now`: it is not covered, and no recovery is under way.
    pub open spec fn renderable(self, now: Instant) -> bool {
        &&& !self.occluded
        &&& self.recover_at matches Some(recover_at) ==> now.nanos >= recover_at.nanos
    }

    /// The surface is configured again at `now`.
    pub open spec fn reconfigures(self, now: Instant) -> bool {
        self.renderable(now) && self.reconfigure
    }

    /// The state after the pending configuration has been taken.
    pub open spec fn after_take(self, now: Instant) -> RenderSchedule {
        if self.reconfigures(now) {
            RenderSchedule { recover_at: None, reconfigure: false, ..self }
        } else {
            self
        }
    }

    /// Notes a batch of events. A gap in wall-clock time starts a recovery.
    pub fn events_resumed(&mut self, wall_time: SystemTime, monotonic_time: Instant)
        requires
            old(self).wakes_at(wall_time) ==> monotonic_time.nanos + WAKE_RECOVERY_DELAY_NANOS
                <= u128::MAX,
        ensures
            *final(self) == old(self).after_events(wall_time, monotonic_time),
    {
        let inactive_for = match self.last_active {
            Some(last_active) => wall_time.duration_since(last_active),
            None => None,
        };
        self.last_active = Some(wall_time);
        if let Some(gap) = inactive_for {
            if gap.nanos >= WAKE_LAG_THRESHOLD_NANOS {
                self.recover_at = Some(
                    monotonic_time.plus(Duration { nanos: WAKE_RECOVERY_DELAY_NANOS }),
                );
                self.reconfigure = true;
            }
        }
    }

    /// Notes whether the window is covered. A window that comes into view again is configured
    /// again before it renders.
    pub fn set_occluded(&mut self, occluded: bool)
        ensures
            *final(self) == old(self).after_occlusion(occluded),
    {
        if self.occluded && !occluded {
            self.reconfigure = true;
        }
        self.occluded = occluded;
    }

    /// Whether the window may render at `now`.
    pub fn can_render(&self, now: Instant) -> (can: bool)
        ensures
            can == self.renderable(now),
    {
        !self.occluded && match self.recover_at {
            Some(recover_at) => now.nanos >= recover_at.nanos,
            None => true,
        }
    }

    /// Takes the pending configuration, if there is one and the window may render at `now`.
    pub fn take_reconfigure(&mut self, now: Instant) -> (taken: bool)
        ensures
            taken == old(self).reconfigures(now),
            *final(self) == old(self).after_take(now),
    {
        if !self.can_render(now) || !self.reconfigure {
            return false;
        }
        self.recover_at = None;
        self.reconfigure = false;
        true
    }
}

/// The state of a new window after these batches of events, each given by its wall-clock time and
/// its monotonic time.
pub open spec fn after_batches(batches: Seq<(SystemTime, Instant)>) -> RenderSchedule
    decreases batches.len(),
{
    if batches.len() == 0 {
        RenderSchedule::initial()
    } else {
        after_batches(batches.drop_last()).after_events(batches.last().0, batches.last().1)
    }
}

/// Every state that the operations lead to pairs a recovery with a pending configuration.
pub proof fn law_recovery_keeps_configuration_pending(
    schedule: RenderSchedule,
    wall_time: SystemTime,
    monotonic_time: Instant,
    occluded: bool,
)
    requires
        schedule.wf(),
    ensures
        RenderSchedule::initial().wf(),
        schedule.after_events(wall_time, monotonic_time).wf(),
        schedule.after_occlusion(occluded).wf(),
        schedule.after_take(monotonic_time).wf(),
{
}

/// After a wake-up nothing renders until the recovery delay has passed. From then on a window in
/// view may render, and its surface is configured again.
pub proof fn law_wake_up_pauses_rendering(
    schedule: RenderSchedule,
    wall_time: SystemTime,
    monotonic_time: Instant,
    now: Instant,
)
    requires
        schedule.wakes_at(wall_time),
        monotonic_time.nanos + WAKE_RECOVERY_DELAY_NANOS <= u128::MAX,
    ensures
        ({
            let woken = schedule.after_events(wall_time, monotonic_time);
            let recovered = now.nanos >= monotonic_time.nanos + WAKE_RECOVERY_DELAY_NANOS;
            &&& woken.renderable(now) <==> recovered && !schedule.occluded
            &&& woken.reconfigures(now) <==> recovered && !schedule.occluded
        }),
{
}

/// A batch of events that follows in time, or after the wall clock went backwards, changes
/// neither what may render nor what is configured again.
pub proof fn law_regular_events_change_nothing(
    schedule: RenderSchedule,
    wall_time: SystemTime,
    monotonic_time: Instant,
    now: Instant,
)
    requires
        !schedule.wakes_at(wall_time),
    ensures
        schedule.after_events(wall_time, monotonic_time).renderable(now) == schedule.renderable(
            now,
        ),
        schedule.after_events(wall_time, monotonic_time).reconfigures(now)
            == schedule.reconfigures(now),
{
}

/// A pending configuration is taken once: after it was taken the window may still render, and
/// nothing more is pending at any later moment.
pub proof fn law_configuration_is_taken_once(
    schedule: RenderSchedule,
    now: Instant,
    later: Instant,
)
    requires
        schedule.reconfigures(now),
    ensures
        schedule.after_take(now).renderable(later),
        !schedule.after_take(now).reconfigures(later),
{
}

/// A covered window never renders; when it is uncovered it is configured again as soon as it may
/// render.
pub proof fn law_covered_window_does_not_render(schedule: RenderSchedule, now: Instant)
    ensures
        !schedule.after_occlusion(true).renderable(now),
        schedule.after_occlusion(true).after_occlusion(false).reconfigures(now)
            == schedule.after_occlusion(true).after_occlusion(false).renderable(now),
        schedule.recover_at is None ==> schedule.after_occlusion(true).after_occlusion(
            false,
        ).renderable(now),
{
}

/// A batch of events is taken for a wake-up exactly where it comes at least two seconds, on the
/// wall clock, after the batch just before it, whatever came earlier and whatever happened to the
/// window in between; the first batch of a window never is.
pub proof fn law_wake_up_is_a_gap_between_neighbours(
    schedule: RenderSchedule,
    wall_time: SystemTime,
    monotonic_time: Instant,
    next: SystemTime,
    now: Instant,
    occluded: bool,
)
    ensures
        schedule.after_events(wall_time, monotonic_time).wakes_at(next) <==> next.nanos
            - wall_time.nanos >= 2_000_000_000,
        !RenderSchedule::initial().wakes_at(next),
        schedule.after_occlusion(occluded).wakes_at(next) == schedule.wakes_at(next),
        schedule.after_take(now).wakes_at(next) == schedule.wakes_at(next),
{
}

/// Of two batches of events that follow each other, the second starts a recovery of one second
/// where it comes at least two seconds after the first; where it does not, the window may render,
/// and is configured again, just as if it had not come.
pub proof fn law_only_a_long_gap_interrupts(
    schedule: RenderSchedule,
    wall_time: SystemTime,
    monotonic_time: Instant,
    next_wall_time: SystemTime,
    next_monotonic_time: Instant,
    now: Instant,
)
    requires
        next_monotonic_time.nanos + 1_000_000_000 <= u128::MAX,
    ensures
        ({
            let first = schedule.after_events(wall_time, monotonic_time);
            let second = first.after_events(next_wall_time, next_monotonic_time);
            let recovered = now.nanos >= next_monotonic_time.nanos + 1_000_000_000;
            if next_wall_time.nanos - wall_time.nanos >= 2_000_000_000 {
                &&& second.renderable(now) <==> !schedule.occluded && recovered
                &&& second.reconfigures(now) <==> !schedule.occluded && recovered
            } else {
                &&& second.renderable(now) == first.renderable(now)
                &&& second.reconfigures(now) == first.reconfigures(now)
            }
        }),
{
}

/// Ordinary running is never interrupted: however many batches of events come, each less than two
/// seconds after the one before, a new window may render all the time and is not configured
/// again.
pub proof fn law_ordinary_running_is_not_interrupted(
    batches: Seq<(SystemTime, Instant)>,
    now: Instant,
)
    requires
        forall|i: int|
            0 < i < batches.len() ==> (#[trigger] batches[i]).0.nanos - batches[i - 1].0.nanos
                < 2_000_000_000,
    ensures
        after_batches(batches).renderable(now),
        !after_batches(batches).reconfigures(now),
        after_batches(batches).last_active == if batches.len() == 0 {
            None
        } else {
            Some(batches.last().0)
        },
    decreases batches.len(),
{
    if batches.len() > 0 {
        let before = batches.drop_last();
        assert forall|i: int| 0 < i < before.len() implies (#[trigger] before[i]).0.nanos
            - before[i - 1].0.nanos < 2_000_000_000 by {
            assert(batches[i] == before[i]);
            assert(batches[i - 1] == before[i - 1]);
        }
        law_ordinary_running_is_not_interrupted(before, now);
        if before.len() > 0 {
            assert(batches[batches.len() - 1].0.nanos - batches[batches.len() - 2].0.nanos
                < 2_000_000_000);
        }
    }
}

/// Covering and uncovering a window touches nothing but what it says: a window that stays as it is
/// keeps its state, a covered one does not render, and one that comes into view may render as soon
/// as no recovery is under way, after it has been configured again.
pub proof fn law_covering_only_hides(schedule: RenderSchedule, now: Instant)
    ensures
        schedule.after_occlusion(schedule.occluded) == schedule,
        !schedule.after_occlusion(true).renderable(now),
        schedule.after_occlusion(false).renderable(now) <==> (schedule.recover_at matches Some(at)
            ==> now.nanos >= at.nanos),
        schedule.occluded ==> schedule.after_occlusion(false).reconfigures(now)
            == schedule.after_occlusion(false).renderable(now),
        schedule.after_occlusion(true).recover_at == schedule.recover_at,
        schedule.after_occlusion(true).reconfigure == schedule.reconfigure,
        schedule.after_occlusion(false).recover_at == schedule.recover_at,
{
}

/// Taking a configuration that is not due changes nothing; taking one that is due leaves the window
/// in view and free to render.
pub proof fn law_taking_is_all_or_nothing(schedule: RenderSchedule, now: Instant, later: Instant)
    ensures
        schedule.reconfigures(now) <==> schedule.renderable(now) && schedule.reconfigure,
        !schedule.reconfigures(now) ==> schedule.after_take(now) == schedule,
        schedule.reconfigures(now) ==> schedule.after_take(now).renderable(later)
            && !schedule.after_take(now).reconfigure,
{
}

} // verus!
