//! The periodic tick source.
//!
//! A hardware counter running at the board clock divided by a fixed
//! prescaler, reset each time it reaches a compare value; the core only
//! computes that configuration, and the compare value is proved to give
//! exactly a one second period.

use vstd::prelude::*;

verus! {

/// Board clock rate, in Hz.
pub const CLOCK_FREQ: u32 = 8_000_000;

/// Fixed prescaler between the board clock and the tick counter.
pub const TIMER_PRESCALE: u32 = 256;

/// A timer configured to fire the periodic tick.
pub struct Timer {
    /// The compare value at which the counter resets and the tick fires.
    pub counter_max: u16,
}

impl Timer {
    /// Create a new timer instance, running with a one second period:
    /// `counter_max` counts of `TIMER_PRESCALE` clock cycles each add up
    /// to exactly one second of the board clock.
    pub fn new() -> (r: Self)
        ensures
            r.counter_max == CLOCK_FREQ / TIMER_PRESCALE,
            r.counter_max as int * TIMER_PRESCALE as int == CLOCK_FREQ as int,
    {
        let counter_max = (CLOCK_FREQ / TIMER_PRESCALE) as u16;
        Timer { counter_max }
    }
}

} // verus!
