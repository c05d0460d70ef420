//! Flags for events that can wake up the main loop.
//!
//! A two-bit set: one bit records that a pulse was detected, one that a
//! timer tick elapsed.  Each bit is set by its producing interrupt handler
//! and taken (read and cleared in one step) exactly once by the main loop.
//! The take operations are single atomic steps of this model; the
//! critical-section discipline that makes them atomic on the device is the
//! concern of [`crate::shared`].

use vstd::prelude::*;

verus! {

/// Bit recording that a pulse (GM event) has occurred.
pub const GM_EVENT: u8 = 0x01;

/// Bit recording that a timer tick has occurred.
pub const TICK_EVENT: u8 = 0x02;

/// Flags for events that can wake up the main loop.
pub struct EventFlags {
    bits: u8,
}

impl EventFlags {
    /// Whether the pulse bit is set.
    pub closed spec fn gm(self) -> bool {
        self.bits & GM_EVENT != 0
    }

    /// Whether the tick bit is set.
    pub closed spec fn tick(self) -> bool {
        self.bits & TICK_EVENT != 0
    }

    /// Only the two defined bits are ever set.
    pub closed spec fn wf(self) -> bool {
        self.bits & !(GM_EVENT | TICK_EVENT) == 0
    }

    /// Create a new instance of flags with all flags reset.
    pub fn new() -> (r: Self)
        ensures
            r.wf(),
            !r.gm(),
            !r.tick(),
    {
        let r = Self { bits: 0 };
        proof {
            assert(0u8 & GM_EVENT == 0 && 0u8 & TICK_EVENT == 0 && 0u8 & !(GM_EVENT | TICK_EVENT)
                == 0) by (bit_vector);
        }
        r
    }

    /// Indicate that a GM event has occurred.
    pub fn set_gm_event(&mut self)
        ensures
            final(self).gm(),
            final(self).tick() == old(self).tick(),
            final(self).wf() == old(self).wf(),
    {
        let b = self.bits;
        self.bits = b | GM_EVENT;
        proof {
            assert((b | GM_EVENT) & GM_EVENT != 0 && ((b | GM_EVENT) & TICK_EVENT != 0) == (b
                & TICK_EVENT != 0) && ((b | GM_EVENT) & !(GM_EVENT | TICK_EVENT) == 0) == (b & !(
            GM_EVENT | TICK_EVENT) == 0)) by (bit_vector);
        }
    }

    /// Indicate that a tick event has occurred.
    pub fn set_tick_event(&mut self)
        ensures
            final(self).tick(),
            final(self).gm() == old(self).gm(),
            final(self).wf() == old(self).wf(),
    {
        let b = self.bits;
        self.bits = b | TICK_EVENT;
        proof {
            assert((b | TICK_EVENT) & TICK_EVENT != 0 && ((b | TICK_EVENT) & GM_EVENT != 0) == (b
                & GM_EVENT != 0) && ((b | TICK_EVENT) & !(GM_EVENT | TICK_EVENT) == 0) == (b & !(
            GM_EVENT | TICK_EVENT) == 0)) by (bit_vector);
        }
    }

    /// Returns `true` if any of the events has occurred.
    pub fn has_any_event(&self) -> (r: bool)
        requires
            self.wf(),
        ensures
            r == (self.gm() || self.tick()),
    {
        let b = self.bits;
        proof {
            assert(b & !(GM_EVENT | TICK_EVENT) == 0 ==> (b != 0) == (b & GM_EVENT != 0 || b
                & TICK_EVENT != 0)) by (bit_vector);
        }
        b != 0
    }

    /// Returns and resets GM event status, in one atomic step.
    pub fn take_gm_event(&mut self) -> (r: bool)
        ensures
            r == old(self).gm(),
            !final(self).gm(),
            final(self).tick() == old(self).tick(),
            final(self).wf() == old(self).wf(),
    {
        let val = self.bits;
        self.bits = val & !GM_EVENT;
        proof {
            assert((val & !GM_EVENT) & GM_EVENT == 0 && ((val & !GM_EVENT) & TICK_EVENT != 0) == (
            val & TICK_EVENT != 0) && ((val & !GM_EVENT) & !(GM_EVENT | TICK_EVENT) == 0) == (val
                & !(GM_EVENT | TICK_EVENT) == 0)) by (bit_vector);
        }
        val & GM_EVENT != 0
    }

    /// Returns and resets tick event status, in one atomic step.
    pub fn take_tick_event(&mut self) -> (r: bool)
        ensures
            r == old(self).tick(),
            !final(self).tick(),
            final(self).gm() == old(self).gm(),
            final(self).wf() == old(self).wf(),
    {
        let val = self.bits;
        self.bits = val & !TICK_EVENT;
        proof {
            assert((val & !TICK_EVENT) & TICK_EVENT == 0 && ((val & !TICK_EVENT) & GM_EVENT != 0)
                == (val & GM_EVENT != 0) && ((val & !TICK_EVENT) & !(GM_EVENT | TICK_EVENT) == 0)
                == (val & !(GM_EVENT | TICK_EVENT) == 0)) by (bit_vector);
        }
        val & TICK_EVENT != 0
    }
}

} // verus!
