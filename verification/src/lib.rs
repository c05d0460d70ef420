//! Event-counting and rate-smoothing core of a radiation-pulse counter.
//!
//! A stream of asynchronous pulse events is turned into a periodically
//! reported count rate.  Pulse and tick handlers update a shared record of
//! flags and counters; the main loop drains those flags, feeds a windowed
//! smoother, and selects one of three rate-estimation modes to produce a
//! report line.  Hardware access (pins, timers, the serial transmitter) is
//! out of scope: outputs are modelled as plain state, and the report is a
//! byte stream handed to a caller-supplied sink.

use vstd::prelude::*;

pub mod beeper;
pub mod control;
pub mod estimator;
pub mod events;
pub mod fixed;
pub mod format;
pub mod led;
pub mod nano_fmt;
pub mod progmem;
pub mod report;
pub mod ring_buffer;
pub mod shared;
pub mod smoother;
pub mod timer;

verus! {

/// Number of most recent tick samples used by the fast (short-window) mode.
pub const SHORT_PERIOD: usize = 5;

/// Capacity of the smoother's ring buffer: the long window, in ticks.
pub const LONG_PERIOD: usize = 60;

/// Long-window count threshold above which the fast mode takes over.
pub const THRESHOLD: u16 = 1000;

/// Counts-per-minute to hundredths-of-uSv/hr conversion factor
/// (scaled by 100 to avoid fractions).
pub const SCALE_FACTOR: u32 = 57;

/// Extrapolation factor from the short window to the long-window basis.
pub const FAST_CPM_SCALE: u32 = 12;

} // verus!
