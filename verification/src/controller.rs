//! The controller step: one polling cycle over the sensor readings.
//!
//! All loop state — the cycle count, the presence state and the last
//! applied brightness — lives in one explicit value threaded through
//! `cycle`, so the step is a function from readings to actions with no
//! ambient state. The caller performs the returned actions (a power
//! toggle, a brightness write) and sleeps out the polling interval;
//! actions are owed only on change, never once per poll.

use vstd::prelude::*;

use core::ops::Range;

use crate::brightness::{map_ambient_to_display_brightness, spec_map_brightness};
use crate::display::DisplayPowerMode;
use crate::presence::{spec_power_action, spec_update, State};

verus! {

/// The immutable configuration of the controller, validated before the
/// loop starts and fixed for the life of the process.
#[derive(Debug)]
pub struct Config {
    /// Proximity at or below this starts the hold window.
    pub proximity_low: u32,
    /// Proximity at or above this asserts presence immediately.
    pub proximity_high: u32,
    /// Ticks a cleared condition must persist before the display turns
    /// off.
    pub proximity_hold: u64,
    /// Ambient light readings mapped onto the brightness range; unset
    /// disables brightness control.
    pub ambient_light_range: Option<Range<u32>>,
    /// Brightness values mapped from the ambient range; unset disables
    /// brightness control.
    pub brightness_range: Option<Range<u32>>,
}

impl Config {
    /// Both optional ranges, where configured, run forwards.
    pub open spec fn wf(&self) -> bool {
        &&& self.ambient_light_range matches Some(r) ==> r.start <= r.end
        &&& self.brightness_range matches Some(r) ==> r.start <= r.end
    }
}

/// The mutable state of the controller loop.
#[derive(Debug, Clone, Copy, PartialEq, Eq, Structural)]
pub struct ControllerState {
    /// Completed polling cycles.
    pub count: u64,
    /// The debounced presence signal.
    pub state: State,
    /// The brightness most recently applied, zero before any write.
    pub brightness: u32,
}

/// The side effects one cycle owes the display collaborators.
#[derive(Debug, Clone, Copy, PartialEq, Eq, Structural)]
pub struct CycleActions {
    /// A power toggle, owed only when the presence state just changed to
    /// `Detected` or `Cleared`.
    pub power: Option<DisplayPowerMode>,
    /// A brightness write, owed only when both ranges are configured and
    /// the mapped value differs from the last applied one.
    pub set_brightness: Option<u32>,
}

/// The presence state after one cycle.
pub open spec fn spec_cycle_state(s: ControllerState, c: Config, proximity: u32, now: u64) -> State {
    match spec_update(s.state, c.proximity_low, c.proximity_high, c.proximity_hold, proximity, now) {
        Some(n) => n,
        None => s.state,
    }
}

/// The brightness owed after one cycle: the mapped value when both
/// ranges are configured, else the last applied value.
pub open spec fn spec_cycle_brightness(s: ControllerState, c: Config, ambient: u32) -> u32 {
    match (c.ambient_light_range, c.brightness_range) {
        (Some(ar), Some(br)) => spec_map_brightness(
            ambient as int,
            ar.start as int,
            ar.end as int,
            br.start as int,
            br.end as int,
        ) as u32,
        _ => s.brightness,
    }
}

/// The whole state after one cycle.
pub open spec fn spec_cycle(s: ControllerState, c: Config, proximity: u32, ambient: u32, now: u64) -> ControllerState {
    ControllerState {
        count: (s.count + 1) as u64,
        state: spec_cycle_state(s, c, proximity, now),
        brightness: spec_cycle_brightness(s, c, ambient),
    }
}

/// The actions one cycle owes.
pub open spec fn spec_cycle_actions(s: ControllerState, c: Config, proximity: u32, ambient: u32, now: u64) -> CycleActions {
    CycleActions {
        power: match spec_update(
            s.state,
            c.proximity_low,
            c.proximity_high,
            c.proximity_hold,
            proximity,
            now,
        ) {
            Some(n) => spec_power_action(n),
            None => None,
        },
        set_brightness: if spec_cycle_brightness(s, c, ambient) != s.brightness {
            Some(spec_cycle_brightness(s, c, ambient))
        } else {
            None
        },
    }
}

impl ControllerState {
    /// The state the loop starts from: no cycles run, presence cleared,
    /// nothing applied.
    pub fn new() -> (r: Self)
        ensures
            r == (ControllerState { count: 0u64, state: State::Cleared, brightness: 0u32 }),
    {
        ControllerState { count: 0, state: State::Cleared, brightness: 0 }
    }

    /// Runs one polling cycle over fresh proximity and ambient readings,
    /// advancing the state and returning the actions owed: a power
    /// toggle when the presence state just changed, a brightness write
    /// when the mapped brightness differs from the last applied one.
    pub fn cycle(&mut self, config: &Config, proximity: u32, ambient: u32, now: u64) -> (r: CycleActions)
        requires
            old(self).count < u64::MAX,
            config.wf(),
            old(self).state matches State::ClearedTransitioning(t0) ==> t0 <= now,
        ensures
            *final(self) == spec_cycle(*old(self), *config, proximity, ambient, now),
            r == spec_cycle_actions(*old(self), *config, proximity, ambient, now),
    {
        let power = match self.state.update(
            config.proximity_low,
            config.proximity_high,
            config.proximity_hold,
            proximity,
            now,
        ) {
            Some(new_state) => {
                self.state = new_state;
                new_state.power_action()
            },
            None => None,
        };

        let set_brightness = match (&config.ambient_light_range, &config.brightness_range) {
            (Some(ambient_range), Some(brightness_range)) => {
                let new_brightness = map_ambient_to_display_brightness(
                    ambient,
                    ambient_range,
                    brightness_range,
                );
                if new_brightness != self.brightness {
                    self.brightness = new_brightness;
                    Some(new_brightness)
                } else {
                    None
                }
            },
            _ => None,
        };

        self.count = self.count + 1;

        CycleActions { power, set_brightness }
    }
}

/// Law: the controller step settles after one cycle. Two consecutive
/// cycles over an unchanged proximity reading, an unchanged ambient
/// reading and an unchanged clock owe no action on the second cycle:
/// every power toggle and brightness write is driven by a change.
pub proof fn lemma_cycle_idempotent(
    s: ControllerState,
    c: Config,
    proximity: u32,
    ambient: u32,
    now: u64,
)
    requires
        c.wf(),
        c.proximity_low < c.proximity_high,
    ensures
        spec_cycle_actions(spec_cycle(s, c, proximity, ambient, now), c, proximity, ambient, now)
            == (CycleActions { power: None::<DisplayPowerMode>, set_brightness: None::<u32> }),
{
    let s1 = spec_cycle(s, c, proximity, ambient, now);
    assert(spec_update(s1.state, c.proximity_low, c.proximity_high, c.proximity_hold, proximity, now) is None);
    assert(spec_cycle_brightness(s1, c, ambient) == s1.brightness);
}

} // verus!
