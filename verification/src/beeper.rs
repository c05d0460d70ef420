//! Audible output, modelled by whether its tone generation is enabled.
//!
//! On the device a hardware timer toggles the piezo pin at a fixed tone
//! frequency while enabled; the core only switches the tone on and off,
//! so just that state is tracked.

use vstd::prelude::*;

verus! {

/// The beeper and whether its tone is running.
pub struct Beeper {
    on: bool,
}

impl Beeper {
    /// Whether the tone is running.
    pub closed spec fn on(self) -> bool {
        self.on
    }

    /// Whether the output is currently driven, read out.
    pub fn is_on(&self) -> (r: bool)
        ensures
            r == self.on(),
    {
        self.on
    }

    /// Take over the configured tone timer, initially silent.
    pub fn new() -> (r: Self)
        ensures
            !r.on(),
    {
        Beeper { on: false }
    }

    /// Turns on the beeper.
    pub fn turn_on(&mut self)
        ensures
            final(self).on(),
    {
        self.on = true;
    }

    /// Turns off the beeper.
    pub fn turn_off(&mut self)
        ensures
            !final(self).on(),
    {
        self.on = false;
    }
}

} // verus!
