//! Byte-oriented output formatting for resource constrained systems.
//!
//! [`NanoWrite`] is the sink capability: it accepts single bytes in order.
//! [`NanoDisplay`] renders a value as a byte sequence into such a sink;
//! unsigned integers render as plain decimal with no leading zeroes.
//! [`ByteSink`] is an in-memory sink for assembling or inspecting output.

use vstd::prelude::*;

verus! {

/// Writer trait for resource constrained systems.  A blocking byte sink:
/// each byte is accepted before the next one.
pub trait NanoWrite: Sized {
    /// All bytes accepted so far.
    spec fn written(&self) -> Seq<u8>;

    /// Write a byte to the writer.
    fn write_byte(&mut self, b: u8)
        ensures
            final(self).written() == old(self).written().push(b),
    ;
}

/// Display trait for resource constrained systems.
pub trait NanoDisplay: Sized {
    /// The exact bytes `fmt` appends.
    spec fn display_seq(self) -> Seq<u8>;

    /// Write formatted representation of `self` to `f`.
    fn fmt<F: NanoWrite>(self, f: &mut F)
        ensures
            final(f).written() == old(f).written() + self.display_seq(),
    ;
}

/// Decimal digits of `n`, most significant first, with no leading zeroes
/// (a single `0` for zero itself).
pub open spec fn spec_decimal(n: nat) -> Seq<u8>
    decreases n,
{
    if n < 10 {
        seq![(48 + n) as u8]
    } else {
        spec_decimal(n / 10).push((48 + n % 10) as u8)
    }
}

/// Write `n` in decimal to `f`.
pub fn fmt_decimal<F: NanoWrite>(n: u128, f: &mut F)
    ensures
        final(f).written() == old(f).written() + spec_decimal(n as nat),
    decreases n,
{
    if n >= 10 {
        fmt_decimal(n / 10, f);
    }
    f.write_byte(48 + (n % 10) as u8);
    proof {
        assert(final(f).written() =~= old(f).written() + spec_decimal(n as nat));
    }
}

impl NanoDisplay for u8 {
    open spec fn display_seq(self) -> Seq<u8> {
        spec_decimal(self as nat)
    }

    fn fmt<F: NanoWrite>(self, f: &mut F) {
        fmt_decimal(self as u128, f);
    }
}

impl NanoDisplay for u16 {
    open spec fn display_seq(self) -> Seq<u8> {
        spec_decimal(self as nat)
    }

    fn fmt<F: NanoWrite>(self, f: &mut F) {
        fmt_decimal(self as u128, f);
    }
}

impl NanoDisplay for u32 {
    open spec fn display_seq(self) -> Seq<u8> {
        spec_decimal(self as nat)
    }

    fn fmt<F: NanoWrite>(self, f: &mut F) {
        fmt_decimal(self as u128, f);
    }
}

impl NanoDisplay for u64 {
    open spec fn display_seq(self) -> Seq<u8> {
        spec_decimal(self as nat)
    }

    fn fmt<F: NanoWrite>(self, f: &mut F) {
        fmt_decimal(self as u128, f);
    }
}

impl NanoDisplay for u128 {
    open spec fn display_seq(self) -> Seq<u8> {
        spec_decimal(self as nat)
    }

    fn fmt<F: NanoWrite>(self, f: &mut F) {
        fmt_decimal(self, f);
    }
}

impl NanoDisplay for usize {
    open spec fn display_seq(self) -> Seq<u8> {
        spec_decimal(self as nat)
    }

    fn fmt<F: NanoWrite>(self, f: &mut F) {
        fmt_decimal(self as u128, f);
    }
}

/// An in-memory byte sink.
pub struct ByteSink {
    bytes: Vec<u8>,
}

impl ByteSink {
    /// An empty sink.
    pub fn new() -> (r: Self)
        ensures
            r.written() == Seq::<u8>::empty(),
    {
        ByteSink { bytes: Vec::new() }
    }

    /// The bytes accepted so far.
    pub fn bytes(&self) -> (r: &Vec<u8>)
        ensures
            r@ == self.written(),
    {
        &self.bytes
    }
}

impl NanoWrite for ByteSink {
    closed spec fn written(&self) -> Seq<u8> {
        self.bytes@
    }

    fn write_byte(&mut self, b: u8) {
        self.bytes.push(b);
    }
}

} // verus!
