//! The stopwatch state machine: three timer states, the wrapping
//! elapsed-milliseconds accumulator, the per-iteration bookkeeping, and the
//! LED pattern each state owes.

use vstd::prelude::*;

use crate::display::{format_elapsed, gauge_seconds, spec_format, spec_seconds};
use crate::input::{release_edge, spec_release_edge, spec_tick_delta, tick_delta};

verus! {

/// A release edge whose press lasted at least this many milliseconds is a
/// long press.
pub const LONG_PRESS_MS: u32 = 400;

#[derive(Clone, Copy, Debug, PartialEq, Eq, Structural)]
pub enum TimerState {
    Stopped,
    Running,
    Paused,
}

/// The two status LEDs: green is the "go" indicator, red the "hold" one.
#[derive(Clone, Copy, Debug, PartialEq, Eq, Structural)]
pub struct LedPattern {
    pub green: bool,
    pub red: bool,
}

/// Value payload for the display sink: the `MM:SS.CC` text and the whole
/// seconds that drive the gauge needle.
pub struct DisplayUpdate {
    pub text: Vec<u8>,
    pub gauge_seconds: u32,
}

/// What one control-loop iteration asks of the sinks. A field is `None` when
/// the iteration owes that sink nothing.
pub struct UpdateOutput {
    pub display: Option<DisplayUpdate>,
    pub leds: Option<LedPattern>,
}

/// The LED pattern is a pure function of the timer state.
pub open spec fn spec_led_pattern(state: TimerState) -> LedPattern {
    match state {
        TimerState::Stopped => LedPattern { green: false, red: false },
        TimerState::Running => LedPattern { green: true, red: false },
        TimerState::Paused => LedPattern { green: false, red: true },
    }
}

pub fn led_pattern(state: TimerState) -> (r: LedPattern)
    ensures
        r == spec_led_pattern(state),
{
    match state {
        TimerState::Stopped => LedPattern { green: false, red: false },
        TimerState::Running => LedPattern { green: true, red: false },
        TimerState::Paused => LedPattern { green: false, red: true },
    }
}

/// The stopwatch core: current state, the elapsed accumulator, and the
/// sampling bookkeeping that the classifier reads.
pub struct HmiManager {
    pub timer_state: TimerState,
    pub timer_elapsed: u32,
    pub last_ticks: u32,
    pub last_button_pressed: bool,
    pub last_button_ticks: u32,
}

/// The state at first invocation: stopped, zero elapsed, button released.
pub open spec fn spec_init() -> HmiManager {
    HmiManager {
        timer_state: TimerState::Stopped,
        timer_elapsed: 0,
        last_ticks: 0,
        last_button_pressed: false,
        last_button_ticks: 0,
    }
}

/// Whether this iteration sees a release edge.
pub open spec fn spec_edge_of(m: HmiManager, current_level: bool) -> bool {
    spec_release_edge(m.last_button_pressed, current_level)
}

/// The press duration this iteration would measure: wrapping distance from
/// the most recent level change to the current tick.
pub open spec fn spec_press_duration_of(m: HmiManager, current_tick: u32) -> u32 {
    spec_tick_delta(current_tick, m.last_button_ticks)
}

/// Transition table: release edges alone move the machine; the press
/// duration is consulted only while paused, where the long side of the
/// threshold is inclusive.
pub open spec fn spec_next_state(state: TimerState, edge: bool, press_duration: u32) -> TimerState {
    if !edge {
        state
    } else {
        match state {
            TimerState::Stopped => TimerState::Running,
            TimerState::Running => TimerState::Paused,
            TimerState::Paused => if press_duration < LONG_PRESS_MS {
                TimerState::Running
            } else {
                TimerState::Stopped
            },
        }
    }
}

/// Sum on the 32-bit wrapping accumulator.
pub open spec fn spec_wrap_add(a: u32, b: u32) -> u32 {
    if a + b > u32::MAX {
        (a + b - 0x1_0000_0000) as u32
    } else {
        (a + b) as u32
    }
}

/// The accumulator after one iteration: while running it grows by the exact
/// wrapping tick delta (even on the edge that pauses it); a long release
/// while paused resets it; otherwise it is frozen.
pub open spec fn spec_next_elapsed(
    state: TimerState,
    elapsed: u32,
    delta: u32,
    edge: bool,
    press_duration: u32,
) -> u32 {
    match state {
        TimerState::Stopped => elapsed,
        TimerState::Running => spec_wrap_add(elapsed, delta),
        TimerState::Paused => if edge && press_duration >= LONG_PRESS_MS {
            0
        } else {
            elapsed
        },
    }
}

/// One whole control-loop iteration on the model: the transition, the
/// accumulator, and the unconditional sampling bookkeeping.
pub open spec fn spec_step(m: HmiManager, ticks: u32, button_pressed: bool) -> HmiManager {
    HmiManager {
        timer_state: spec_next_state(
            m.timer_state,
            spec_edge_of(m, button_pressed),
            spec_press_duration_of(m, ticks),
        ),
        timer_elapsed: spec_next_elapsed(
            m.timer_state,
            m.timer_elapsed,
            spec_tick_delta(ticks, m.last_ticks),
            spec_edge_of(m, button_pressed),
            spec_press_duration_of(m, ticks),
        ),
        last_ticks: ticks,
        last_button_pressed: button_pressed,
        last_button_ticks: if button_pressed != m.last_button_pressed {
            ticks
        } else {
            m.last_button_ticks
        },
    }
}

/// Whether an iteration owes the display sink a payload: every running
/// iteration, and the long release that resets the accumulator.
pub open spec fn spec_display_due(state: TimerState, edge: bool, press_duration: u32) -> bool {
    state == TimerState::Running || (state == TimerState::Paused && edge && press_duration
        >= LONG_PRESS_MS)
}

/// Builds the display payload for an elapsed-milliseconds value.
pub fn make_display(elapsed: u32) -> (d: DisplayUpdate)
    ensures
        d.text@ == spec_format(elapsed),
        d.gauge_seconds == spec_seconds(elapsed),
{
    DisplayUpdate { text: format_elapsed(elapsed), gauge_seconds: gauge_seconds(elapsed) }
}

impl HmiManager {
    pub fn new_empty() -> (r: Self)
        ensures
            r == spec_init(),
    {
        HmiManager {
            timer_state: TimerState::Stopped,
            timer_elapsed: 0,
            last_ticks: 0,
            last_button_pressed: false,
            last_button_ticks: 0,
        }
    }

    /// One control-loop iteration: classifies the sample against the previous
    /// one, advances the machine, and returns what the sinks are owed. LEDs
    /// are recomputed on exactly the iterations whose release edge moved the
    /// machine; the display is recomputed on every running iteration and on
    /// the long-release reset, always showing the new accumulator value.
    pub fn update(&mut self, ticks: u32, button_pressed: bool) -> (out: UpdateOutput)
        ensures
            *final(self) == spec_step(*old(self), ticks, button_pressed),
            out.leds == (if spec_edge_of(*old(self), button_pressed) {
                Some(spec_led_pattern(final(self).timer_state))
            } else {
                None::<LedPattern>
            }),
            (match out.display {
                Some(d) => spec_display_due(
                    old(self).timer_state,
                    spec_edge_of(*old(self), button_pressed),
                    spec_press_duration_of(*old(self), ticks),
                ) && d.text@ == spec_format(final(self).timer_elapsed) && d.gauge_seconds
                    == spec_seconds(final(self).timer_elapsed),
                None => !spec_display_due(
                    old(self).timer_state,
                    spec_edge_of(*old(self), button_pressed),
                    spec_press_duration_of(*old(self), ticks),
                ),
            }),
    {
        let edge = release_edge(self.last_button_pressed, button_pressed);
        let press_duration = tick_delta(ticks, self.last_button_ticks);
        let delta = tick_delta(ticks, self.last_ticks);

        let mut leds: Option<LedPattern> = None;
        let mut display: Option<DisplayUpdate> = None;

        match self.timer_state {
            TimerState::Stopped => {
                if edge {
                    self.timer_state = TimerState::Running;
                    leds = Some(led_pattern(self.timer_state));
                }
            },
            TimerState::Running => {
                self.timer_elapsed = self.timer_elapsed.wrapping_add(delta);
                display = Some(make_display(self.timer_elapsed));
                if edge {
                    self.timer_state = TimerState::Paused;
                    leds = Some(led_pattern(self.timer_state));
                }
            },
            TimerState::Paused => {
                if edge {
                    if press_duration < LONG_PRESS_MS {
                        self.timer_state = TimerState::Running;
                    } else {
                        self.timer_state = TimerState::Stopped;
                        self.timer_elapsed = 0;
                        display = Some(make_display(self.timer_elapsed));
                    }
                    leds = Some(led_pattern(self.timer_state));
                }
            },
        }

        if button_pressed != self.last_button_pressed {
            self.last_button_ticks = ticks;
        }
        self.last_button_pressed = button_pressed;
        self.last_ticks = ticks;

        UpdateOutput { display, leds }
    }
}

} // verus!
