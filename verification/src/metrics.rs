//! The per-tick metrics snapshot: frame rate, tick rate and live entity
//! count, in fixed-point units so each value is exact.

use vstd::prelude::*;

verus! {

/// One metrics snapshot.  Rates are in milli-hertz (a value of 50_000
/// is 50 frames or ticks per second); no history is retained.
#[derive(Clone, Copy, PartialEq, Eq, Structural, Debug)]
pub struct Metrics {
    /// Smoothed frame rate reported by the host, in milli-hertz.
    pub fps_milli: u64,
    /// Reciprocal of the fixed tick duration, in milli-hertz.
    pub tps_milli: u64,
    /// Number of live entities.
    pub bunnies: usize,
}

/// The tick rate, in milli-hertz, for a fixed tick duration given in
/// microseconds: the reciprocal of the duration, or 0 for a duration of
/// 0 (there is no division by zero).
pub open spec fn tick_rate_of(delta_micros: u64) -> int {
    if delta_micros == 0 {
        0
    } else {
        1_000_000_000 as int / delta_micros as int
    }
}

/// Computes the tick rate in milli-hertz from the fixed tick duration in
/// microseconds.  A duration of 20_000 (0.02 s) gives 50_000 (50 Hz);
/// a duration of 0 gives 0.
pub fn tick_rate_millihertz(delta_micros: u64) -> (r: u64)
    ensures
        r == tick_rate_of(delta_micros),
{
    if delta_micros == 0 {
        0
    } else {
        1_000_000_000u64 / delta_micros
    }
}

} // verus!
