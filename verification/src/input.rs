//! Input classifier: turns two consecutive raw button samples into a release
//! edge, and measures the press duration on the wrapping millisecond clock.

use vstd::prelude::*;

verus! {

/// A release edge: the sampled level went from pressed to not-pressed
/// between two consecutive iterations.
pub open spec fn spec_release_edge(previous_level: bool, current_level: bool) -> bool {
    previous_level && !current_level
}

/// Distance from an earlier tick to the current one on the 32-bit wrapping
/// millisecond clock (modular subtraction, never signed comparison).
pub open spec fn spec_tick_delta(current_tick: u32, earlier_tick: u32) -> u32 {
    if current_tick >= earlier_tick {
        (current_tick - earlier_tick) as u32
    } else {
        (current_tick - earlier_tick + 0x1_0000_0000) as u32
    }
}

pub fn release_edge(previous_level: bool, current_level: bool) -> (r: bool)
    ensures
        r == spec_release_edge(previous_level, current_level),
{
    previous_level && !current_level
}

pub fn tick_delta(current_tick: u32, earlier_tick: u32) -> (r: u32)
    ensures
        r == spec_tick_delta(current_tick, earlier_tick),
{
    current_tick.wrapping_sub(earlier_tick)
}

/// Classifies one sample: on a release edge, the wrapping press duration
/// since the most recent level change; otherwise no event.
pub fn classify(
    previous_level: bool,
    current_level: bool,
    current_tick: u32,
    last_edge_tick: u32,
) -> (r: Option<u32>)
    ensures
        spec_release_edge(previous_level, current_level) ==> r == Some(
            spec_tick_delta(current_tick, last_edge_tick),
        ),
        !spec_release_edge(previous_level, current_level) ==> r is None,
{
    if release_edge(previous_level, current_level) {
        Some(tick_delta(current_tick, last_edge_tick))
    } else {
        None
    }
}

} // verus!
