//! The offset, in whole minutes, by which the shown time departs from the clock.

use vstd::prelude::*;

use crate::time::Instant;

verus! {

/// Adjustments that follow the last accepted one within this span are dropped.
pub const TIME_CONTROL_DEBOUNCE_NANOS: u128 = 50_000_000;

/// The offset and the moment it was last adjusted.
#[derive(Clone, Copy, Debug, PartialEq, Eq, Structural)]
pub struct TimeControl {
    pub offset_minutes: i64,
    pub last_adjustment: Option<Instant>,
}

impl Default for TimeControl {
    fn default() -> (control: TimeControl)
        ensures
            control == TimeControl::initial(),
    {
        TimeControl { offset_minutes: 0, last_adjustment: None }
    }
}

impl TimeControl {
    /// No offset, and nothing to debounce against.
    pub open spec fn initial() -> TimeControl {
        TimeControl { offset_minutes: 0, last_adjustment: None }
    }

    /// An adjustment at `now` comes too soon after the last accepted one.
    pub open spec fn debounced(self, now: Instant) -> bool {
        self.last_adjustment matches Some(last) && now.nanos - last.nanos
            < TIME_CONTROL_DEBOUNCE_NANOS
    }

    /// The state after an adjustment by `minutes` at `now`.
    pub open spec fn after_adjust(self, minutes: i64, now: Instant) -> TimeControl {
        if self.debounced(now) {
            self
        } else {
            TimeControl {
                offset_minutes: (self.offset_minutes + minutes) as i64,
                last_adjustment: Some(now),
            }
        }
    }

    /// Whether an adjustment at `now` comes too soon after the last accepted one.
    pub fn is_debounced(&self, now: Instant) -> (debounced: bool)
        ensures
            debounced == self.debounced(now),
    {
        match self.last_adjustment {
            Some(last) => now.duration_since(last).nanos < TIME_CONTROL_DEBOUNCE_NANOS,
            None => false,
        }
    }

    /// Adds `minutes` to the offset unless the adjustment is debounced; tells whether it did.
    pub fn adjust_minutes(&mut self, minutes: i64, now: Instant) -> (adjusted: bool)
        requires
            !old(self).debounced(now) ==> i64::MIN <= old(self).offset_minutes + minutes
                <= i64::MAX,
        ensures
            adjusted == !old(self).debounced(now),
            *final(self) == old(self).after_adjust(minutes, now),
    {
        if self.is_debounced(now) {
            return false;
        }
        self.offset_minutes = self.offset_minutes + minutes;
        self.last_adjustment = Some(now);
        true
    }

    /// Returns to the clock's own time.
    pub fn reset(&mut self)
        ensures
            *final(self) == TimeControl::initial(),
    {
        self.offset_minutes = 0;
        self.last_adjustment = None;
    }

    /// The offset in minutes.
    pub fn offset_minutes(&self) -> (minutes: i64)
        ensures
            minutes == self.offset_minutes,
    {
        self.offset_minutes
    }
}

/// Two adjustments that are both accepted lie at least the debounce span apart.
pub proof fn law_accepted_adjustments_are_spaced(
    control: TimeControl,
    first_minutes: i64,
    first: Instant,
    second: Instant,
)
    requires
        !control.debounced(first),
        !control.after_adjust(first_minutes, first).debounced(second),
    ensures
        second.nanos - first.nanos >= TIME_CONTROL_DEBOUNCE_NANOS,
{
}

/// A dropped adjustment leaves no trace: it does not push the debounce span further out either.
pub proof fn law_dropped_adjustment_leaves_no_trace(
    control: TimeControl,
    dropped_minutes: i64,
    minutes: i64,
    dropped: Instant,
    now: Instant,
)
    requires
        control.debounced(dropped),
    ensures
        control.after_adjust(dropped_minutes, dropped).debounced(now) == control.debounced(now),
        control.after_adjust(dropped_minutes, dropped).after_adjust(minutes, now)
            == control.after_adjust(minutes, now),
{
}

/// Stepping forward and back again, both accepted, restores the offset.
pub proof fn law_opposite_adjustments_cancel(
    control: TimeControl,
    minutes: i64,
    first: Instant,
    second: Instant,
)
    requires
        minutes != i64::MIN,
        i64::MIN <= control.offset_minutes + minutes <= i64::MAX,
        !control.debounced(first),
        !control.after_adjust(minutes, first).debounced(second),
    ensures
        control.after_adjust(minutes, first).after_adjust(
            (-minutes) as i64,
            second,
        ).offset_minutes == control.offset_minutes,
{
}

/// A new control takes the first adjustment; after an accepted one, a further adjustment is taken
/// exactly from 50 milliseconds on, and after a reset at once.
pub proof fn law_adjustments_are_taken_after_the_debounce(
    control: TimeControl,
    minutes: i64,
    at: Instant,
    later: Instant,
)
    ensures
        !TimeControl::initial().debounced(later),
        !control.debounced(at) ==> (control.after_adjust(minutes, at).debounced(later)
            <==> later.nanos < at.nanos + 50_000_000),
        control.debounced(at) ==> control.after_adjust(minutes, at) == control,
{
}

/// An accepted adjustment moves the offset by just its minutes, in their direction, wherever the
/// offset stood; the offset starts at zero.
pub proof fn law_adjustments_add_up(control: TimeControl, minutes: i64, at: Instant)
    requires
        !control.debounced(at),
        i64::MIN <= control.offset_minutes + minutes <= i64::MAX,
    ensures
        control.after_adjust(minutes, at).offset_minutes - control.offset_minutes == minutes,
        TimeControl::initial().offset_minutes == 0,
{
}

} // verus!
