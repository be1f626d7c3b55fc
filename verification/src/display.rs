//! Display formatting: the fixed-width `MM:SS.CC` rendering of an
//! elapsed-milliseconds value, and the seconds value that drives the gauge.

use vstd::prelude::*;

verus! {

/// Minutes digit pair of an elapsed-milliseconds value, 0..60.
pub open spec fn spec_minutes(elapsed: u32) -> int {
    (elapsed as int / 60000) % 60
}

/// Seconds within the current minute, 0..60.
pub open spec fn spec_seconds(elapsed: u32) -> int {
    (elapsed as int / 1000) % 60
}

/// Centiseconds within the current second, 0..100.
pub open spec fn spec_centis(elapsed: u32) -> int {
    (elapsed as int / 10) % 100
}

/// ASCII digit for a value in 0..10 (48 is '0').
pub open spec fn spec_digit(n: int) -> u8 {
    (48 + n) as u8
}

/// The eight ASCII bytes `MM:SS.CC` (58 is ':', 46 is '.'), zero-padded.
pub open spec fn spec_format(elapsed: u32) -> Seq<u8> {
    seq![
        spec_digit(spec_minutes(elapsed) / 10),
        spec_digit(spec_minutes(elapsed) % 10),
        58u8,
        spec_digit(spec_seconds(elapsed) / 10),
        spec_digit(spec_seconds(elapsed) % 10),
        46u8,
        spec_digit(spec_centis(elapsed) / 10),
        spec_digit(spec_centis(elapsed) % 10),
    ]
}

/// Renders an elapsed-milliseconds value as the eight ASCII bytes `MM:SS.CC`.
pub fn format_elapsed(elapsed: u32) -> (r: Vec<u8>)
    ensures
        r@ == spec_format(elapsed),
{
    let minutes: u32 = (elapsed / 60000) % 60;
    let seconds: u32 = (elapsed / 1000) % 60;
    let centis: u32 = (elapsed / 10) % 100;
    let mut r: Vec<u8> = Vec::new();
    r.push(48 + (minutes / 10) as u8);
    r.push(48 + (minutes % 10) as u8);
    r.push(58);
    r.push(48 + (seconds / 10) as u8);
    r.push(48 + (seconds % 10) as u8);
    r.push(46);
    r.push(48 + (centis / 10) as u8);
    r.push(48 + (centis % 10) as u8);
    proof {
        assert(r@ =~= spec_format(elapsed));
    }
    r
}

/// The gauge needle position: whole seconds within the current minute.
pub fn gauge_seconds(elapsed: u32) -> (r: u32)
    ensures
        r == spec_seconds(elapsed),
{
    (elapsed / 1000) % 60
}

} // verus!
