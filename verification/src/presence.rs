//! Hysteresis state machine for the presence signal.
//!
//! A raw proximity stream toggles rapidly near any single threshold, so
//! presence is derived from two thresholds and a hold duration: a strong
//! reading asserts presence immediately, while a weak reading must be
//! sustained for the full hold duration before presence is dropped.
//! Timestamps are unitless ticks from any monotonic clock; the hold
//! duration is measured in the same ticks.

use vstd::prelude::*;

use crate::display::DisplayPowerMode;

verus! {

/// The debounced presence signal.
#[derive(Debug, Clone, Copy, PartialEq, Eq, Structural)]
pub enum State {
    /// Something is near the sensor; the display should be on.
    Detected,
    /// Nothing has been near the sensor for the hold duration; the
    /// display should be off.
    Cleared,
    /// Nothing is near the sensor, but the hold window that started at
    /// the carried timestamp has not elapsed yet; no display action.
    ClearedTransitioning(u64),
}

/// The transition the machine takes, if any, for one proximity reading.
///
/// The rules, in priority order:
/// 1. not `Detected`, and the reading is at or above the high
///    threshold: become `Detected` at once, even mid-hold-window;
/// 2. `Detected`, and the reading is at or below the low threshold:
///    start the hold window at `now`;
/// 3. in a hold window that started more than `hold_duration` ago:
///    become `Cleared`;
/// 4. otherwise no transition, and the hold window's start is kept.
pub open spec fn spec_update(
    s: State,
    low_threshold: u32,
    high_threshold: u32,
    hold_duration: u64,
    proximity: u32,
    now: u64,
) -> Option<State> {
    if s != State::Detected && proximity >= high_threshold {
        Some(State::Detected)
    } else if s == State::Detected && proximity <= low_threshold {
        Some(State::ClearedTransitioning(now))
    } else if s matches State::ClearedTransitioning(t0) && now - t0 > hold_duration {
        Some(State::Cleared)
    } else {
        None
    }
}

/// The display action owed when the machine has just entered `s`.
pub open spec fn spec_power_action(s: State) -> Option<DisplayPowerMode> {
    match s {
        State::Detected => Some(DisplayPowerMode::On),
        State::Cleared => Some(DisplayPowerMode::Off),
        State::ClearedTransitioning(_) => None,
    }
}

impl State {
    /// Feeds one proximity reading to the machine, returning the new
    /// state when a transition occurs and `None` otherwise.
    pub fn update(
        &self,
        low_threshold: u32,
        high_threshold: u32,
        hold_duration: u64,
        proximity: u32,
        now: u64,
    ) -> (r: Option<State>)
        requires
            *self matches State::ClearedTransitioning(t0) ==> t0 <= now,
        ensures
            r == spec_update(*self, low_threshold, high_threshold, hold_duration, proximity, now),
    {
        if !matches!(self, State::Detected) && proximity >= high_threshold {
            return Some(State::Detected);
        }

        match self {
            State::Detected => {
                if proximity <= low_threshold {
                    return Some(State::ClearedTransitioning(now));
                }
            },
            State::ClearedTransitioning(t0) => {
                if now - *t0 > hold_duration {
                    return Some(State::Cleared);
                }
            },
            _ => {},
        }

        None
    }

    /// The display action owed on entry to this state: power on for
    /// `Detected`, power off for `Cleared`, nothing while a hold window
    /// is pending.
    pub fn power_action(&self) -> (r: Option<DisplayPowerMode>)
        ensures
            r == spec_power_action(*self),
    {
        match self {
            State::Detected => Some(DisplayPowerMode::On),
            State::Cleared => Some(DisplayPowerMode::Off),
            State::ClearedTransitioning(_) => None,
        }
    }
}

} // verus!
