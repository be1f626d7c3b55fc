//! Laws of the stopwatch machine, stated over whole sample sequences and
//! over single steps of the transition model in `hmi_manager`.

use vstd::prelude::*;

use crate::hmi_manager::{
    spec_edge_of, spec_led_pattern, spec_press_duration_of, spec_step, HmiManager, LedPattern,
    TimerState, LONG_PRESS_MS,
};
use crate::input::spec_tick_delta;

verus! {

/// The machine after a whole sequence of `(tick, button_level)` samples,
/// fed one iteration at a time from `init`.
pub open spec fn spec_run(init: HmiManager, samples: Seq<(u32, bool)>) -> HmiManager
    decreases samples.len(),
{
    if samples.len() == 0 {
        init
    } else {
        spec_step(spec_run(init, samples.drop_last()), samples.last().0, samples.last().1)
    }
}

/// A run over one more sample is one step past the shorter run.
pub proof fn lemma_run_unfold(init: HmiManager, samples: Seq<(u32, bool)>, i: int)
    requires
        0 <= i < samples.len(),
    ensures
        spec_run(init, samples.take(i + 1)) == spec_step(
            spec_run(init, samples.take(i)),
            samples[i].0,
            samples[i].1,
        ),
{
    assert(samples.take(i + 1).drop_last() =~= samples.take(i));
    assert(samples.take(i + 1).last() == samples[i]);
}

/// The elapsed accumulator across one step: while running it never
/// decreases, as long as the 32-bit accumulator itself does not wrap; while
/// stopped it is frozen; while paused it is frozen except on a long release,
/// which resets it to zero.
pub proof fn lemma_elapsed_step(m: HmiManager, ticks: u32, button_pressed: bool)
    ensures
        m.timer_state == TimerState::Running && m.timer_elapsed + spec_tick_delta(
            ticks,
            m.last_ticks,
        ) <= u32::MAX ==> spec_step(m, ticks, button_pressed).timer_elapsed >= m.timer_elapsed,
        m.timer_state == TimerState::Running ==> spec_step(m, ticks, button_pressed).timer_elapsed
            == (m.timer_elapsed + spec_tick_delta(ticks, m.last_ticks)) % 0x1_0000_0000,
        m.timer_state == TimerState::Stopped ==> spec_step(m, ticks, button_pressed).timer_elapsed
            == m.timer_elapsed,
        m.timer_state == TimerState::Paused && !(spec_edge_of(m, button_pressed)
            && spec_press_duration_of(m, ticks) >= LONG_PRESS_MS) ==> spec_step(
            m,
            ticks,
            button_pressed,
        ).timer_elapsed == m.timer_elapsed,
        m.timer_state == TimerState::Paused && spec_edge_of(m, button_pressed)
            && spec_press_duration_of(m, ticks) >= LONG_PRESS_MS ==> spec_step(
            m,
            ticks,
            button_pressed,
        ).timer_elapsed == 0,
{
}

/// The same accumulator law at every point of a run: between two
/// consecutive prefixes of any sample sequence, the elapsed value grows
/// (without decreasing, short of 32-bit wrap) exactly when the derived state
/// is running, and stands still otherwise, short of the long-release reset.
pub proof fn lemma_elapsed_run(init: HmiManager, samples: Seq<(u32, bool)>, i: int)
    requires
        0 <= i < samples.len(),
    ensures
        spec_run(init, samples.take(i)).timer_state == TimerState::Running && spec_run(
            init,
            samples.take(i),
        ).timer_elapsed + spec_tick_delta(samples[i].0, spec_run(init, samples.take(i)).last_ticks)
            <= u32::MAX ==> spec_run(init, samples.take(i + 1)).timer_elapsed >= spec_run(
            init,
            samples.take(i),
        ).timer_elapsed,
        spec_run(init, samples.take(i)).timer_state != TimerState::Running && !(spec_run(
            init,
            samples.take(i),
        ).timer_state == TimerState::Paused && spec_edge_of(
            spec_run(init, samples.take(i)),
            samples[i].1,
        ) && spec_press_duration_of(spec_run(init, samples.take(i)), samples[i].0)
            >= LONG_PRESS_MS) ==> spec_run(init, samples.take(i + 1)).timer_elapsed == spec_run(
            init,
            samples.take(i),
        ).timer_elapsed,
{
    lemma_run_unfold(init, samples, i);
    lemma_elapsed_step(spec_run(init, samples.take(i)), samples[i].0, samples[i].1);
}

/// A sample without a release edge never moves the machine: transitions are
/// detected exactly once per press-release cycle.
pub proof fn lemma_no_edge_no_transition(m: HmiManager, ticks: u32, button_pressed: bool)
    requires
        !spec_edge_of(m, button_pressed),
    ensures
        spec_step(m, ticks, button_pressed).timer_state == m.timer_state,
{
}

/// One short press-release cycle from stopped: the release edge itself moves
/// the machine to running, and the following iterations, with the button
/// left released, keep it running — one edge, one transition.
pub proof fn lemma_single_start_per_edge(m: HmiManager, t1: u32, t2: u32)
    requires
        m.timer_state == TimerState::Stopped,
        m.last_button_pressed,
    ensures
        spec_step(m, t1, false).timer_state == TimerState::Running,
        spec_step(spec_step(m, t1, false), t2, false).timer_state == TimerState::Running,
{
}

/// From paused, a release edge resumes below the long-press threshold, and
/// at or above it stops the machine and resets the accumulator: the boundary
/// is inclusive on the long side.
pub proof fn lemma_paused_release_boundary(m: HmiManager, ticks: u32, button_pressed: bool)
    requires
        m.timer_state == TimerState::Paused,
        spec_edge_of(m, button_pressed),
    ensures
        spec_press_duration_of(m, ticks) < LONG_PRESS_MS ==> spec_step(
            m,
            ticks,
            button_pressed,
        ).timer_state == TimerState::Running && spec_step(m, ticks, button_pressed).timer_elapsed
            == m.timer_elapsed,
        spec_press_duration_of(m, ticks) >= LONG_PRESS_MS ==> spec_step(
            m,
            ticks,
            button_pressed,
        ).timer_state == TimerState::Stopped && spec_step(m, ticks, button_pressed).timer_elapsed
            == 0,
{
}

/// The LED pattern is a pure function of the timer state — two machines in
/// the same state share it, whatever their histories — and matches the
/// indicator table exactly.
pub proof fn lemma_led_pattern_pure(a: HmiManager, b: HmiManager)
    requires
        a.timer_state == b.timer_state,
    ensures
        spec_led_pattern(a.timer_state) == spec_led_pattern(b.timer_state),
        spec_led_pattern(TimerState::Stopped) == (LedPattern { green: false, red: false }),
        spec_led_pattern(TimerState::Running) == (LedPattern { green: true, red: false }),
        spec_led_pattern(TimerState::Paused) == (LedPattern { green: false, red: true }),
{
}

} // verus!
