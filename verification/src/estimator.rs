//! Mode selection and dose-rate computation.
//!
//! Pure decision logic: given the latest counts-per-second sample and the
//! smoother's two windowed sums, pick one of three reporting modes and a
//! counts-per-minute estimate, then derive the dose rate by fixed-point
//! scaling.  The choice is made fresh for every report; there is no state.

use vstd::prelude::*;

use crate::FAST_CPM_SCALE;
use crate::SCALE_FACTOR;
use crate::THRESHOLD;
use crate::fixed::Fixed2;
use crate::progmem::PStr;

verus! {

/// The chosen reporting mode, carrying its counts-per-minute estimate.
#[derive(Clone, Copy, Debug, PartialEq, Eq, Structural)]
pub enum Rate {
    /// The single latest second, extrapolated directly: the per-tick count
    /// exceeded the sample range, so no window can be trusted.
    Instant(u32),
    /// The long window read as counts per minute: stable at low activity.
    Slow(u32),
    /// The short window extrapolated to the per-minute basis: responsive
    /// once activity is high.
    Fast(u32),
}

impl Rate {
    /// The counts-per-minute estimate of the chosen mode.
    pub open spec fn spec_cpm(self) -> u32 {
        match self {
            Rate::Instant(v) => v,
            Rate::Slow(v) => v,
            Rate::Fast(v) => v,
        }
    }

    /// The counts-per-minute estimate of the chosen mode.
    pub fn cpm(&self) -> (r: u32)
        ensures
            r == self.spec_cpm(),
    {
        match self {
            Rate::Instant(v) => *v,
            Rate::Slow(v) => *v,
            Rate::Fast(v) => *v,
        }
    }

    /// The literal mode token of the report line.
    pub open spec fn spec_label(self) -> Seq<u8> {
        match self {
            Rate::Instant(_) => seq![73u8, 78u8, 83u8, 84u8],
            Rate::Slow(_) => seq![83u8, 76u8, 79u8, 87u8],
            Rate::Fast(_) => seq![70u8, 65u8, 83u8, 84u8],
        }
    }

    /// The literal mode token of the report line.
    pub fn label(&self) -> (r: PStr)
        ensures
            r@ == self.spec_label(),
    {
        let bytes: Vec<u8> = match self {
            Rate::Instant(_) => vec![73u8, 78u8, 83u8, 84u8],
            Rate::Slow(_) => vec![83u8, 76u8, 79u8, 87u8],
            Rate::Fast(_) => vec![70u8, 65u8, 83u8, 84u8],
        };
        PStr::new(bytes)
    }
}

/// The decision rule, in order: a sample-range overflow forces the instant
/// mode; a long-window sum at or under the threshold keeps the slow mode;
/// otherwise the fast mode extrapolates the short window.
pub open spec fn spec_estimate(cps: u16, slow_sum: u16, short_sum: u16) -> Rate {
    if cps > 255 {
        Rate::Instant((cps as int * 60) as u32)
    } else if slow_sum <= THRESHOLD {
        Rate::Slow(slow_sum as u32)
    } else {
        Rate::Fast((short_sum as int * FAST_CPM_SCALE as int) as u32)
    }
}

/// Select the reporting mode and counts-per-minute estimate.  The result
/// is a pure function of the three inputs: identical inputs always yield
/// the identical mode and rate.
pub fn estimate(cps: u16, slow_sum: u16, short_sum: u16) -> (r: Rate)
    ensures
        r == spec_estimate(cps, slow_sum, short_sum),
        r.spec_cpm() <= 0xFFFF * 60,
{
    if cps > 255 {
        Rate::Instant(cps as u32 * 60)
    } else if slow_sum <= THRESHOLD {
        Rate::Slow(slow_sum as u32)
    } else {
        Rate::Fast(short_sum as u32 * FAST_CPM_SCALE)
    }
}

/// Convert a counts-per-minute estimate to a dose rate in hundredths of
/// uSv/hr.  The multiplication is widened so it cannot overflow, and the
/// division truncates; no rounding.
pub fn dose_rate(cpm: u32) -> (r: Fixed2)
    ensures
        r@ as int == cpm as int * SCALE_FACTOR as int / 100,
{
    proof {
        vstd::arithmetic::div_mod::lemma_div_is_ordered(
            cpm as int * SCALE_FACTOR as int,
            0xFFFF_FFFF * SCALE_FACTOR as int,
            100,
        );
    }
    let scaled = ((cpm as u64) * (SCALE_FACTOR as u64) / 100) as u32;
    Fixed2::from_bits(scaled)
}

} // verus!
