//! Fixed point value with 2 decimal digits.
//!
//! Dose rates are carried as integers scaled by 100 and rendered as an
//! integer part, a point, and exactly two fractional digits, with no
//! floating-point arithmetic anywhere.

use vstd::prelude::*;

use crate::nano_fmt::NanoDisplay;
use crate::nano_fmt::NanoWrite;
use crate::nano_fmt::spec_decimal;

verus! {

/// Fixed point value with 2 decimal digits; the view is the scaled
/// integer: the represented value times 100.
#[derive(Clone, Copy)]
pub struct Fixed2 {
    bits: u32,
}

impl View for Fixed2 {
    type V = u32;

    closed spec fn view(&self) -> u32 {
        self.bits
    }
}

/// The two fractional digits, with a leading zero when needed.
pub open spec fn spec_frac2(f: nat) -> Seq<u8> {
    if f < 10 {
        seq![48u8] + spec_decimal(f)
    } else {
        spec_decimal(f)
    }
}

/// The rendering of a scaled value: integer part, point, two fractional
/// digits.
pub open spec fn spec_fixed2(bits: nat) -> Seq<u8> {
    spec_decimal(bits / 100) + seq![46u8] + spec_frac2(bits % 100)
}

impl Fixed2 {
    /// Construct new value from scaled integer.
    pub fn from_bits(bits: u32) -> (r: Self)
        ensures
            r@ == bits,
    {
        Self { bits }
    }
}

impl NanoDisplay for Fixed2 {
    open spec fn display_seq(self) -> Seq<u8> {
        spec_fixed2(self@ as nat)
    }

    fn fmt<F: NanoWrite>(self, f: &mut F) {
        let fract = (self.bits % 100) as u8;
        let integer = self.bits / 100;

        integer.fmt(f);

        f.write_byte(46);

        if fract < 10 {
            f.write_byte(48);
        }
        (fract as u32).fmt(f);

        proof {
            assert(final(f).written() =~= old(f).written() + spec_fixed2(self@ as nat));
        }
    }
}

} // verus!
