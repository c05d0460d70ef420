//! Indicator LED, modelled by the level of its dedicated output pin.
//!
//! The pin is a hardware side effect only, never shared state, so the
//! core tracks just the level it has driven.

use vstd::prelude::*;

verus! {

/// The indicator LED and the level driven onto its pin.
pub struct Led {
    on: bool,
}

impl Led {
    /// Whether the output is driven high.
    pub closed spec fn on(self) -> bool {
        self.on
    }

    /// Whether the output is currently driven, read out.
    pub fn is_on(&self) -> (r: bool)
        ensures
            r == self.on(),
    {
        self.on
    }

    /// Take over a freshly configured output pin, driven low.
    pub fn new() -> (r: Self)
        ensures
            !r.on(),
    {
        Led { on: false }
    }

    /// Drive the output high.
    pub fn turn_on(&mut self)
        ensures
            final(self).on(),
    {
        self.on = true;
    }

    /// Drive the output low.
    pub fn turn_off(&mut self)
        ensures
            !final(self).on(),
    {
        self.on = false;
    }
}

} // verus!
