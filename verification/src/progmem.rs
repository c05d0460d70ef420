//! Literal byte strings for formatted output.
//!
//! On the device these live in program memory as C-style strings and are
//! read byte by byte until their terminator; here a [`PStr`] carries its
//! bytes directly, with the terminator replaced by the explicit length.
//! The no-interior-zero invariant of the stored form is kept, so walking
//! the bytes and walking up to a terminator agree.

use vstd::prelude::*;

use crate::nano_fmt::NanoDisplay;
use crate::nano_fmt::NanoWrite;

verus! {

/// Literal string of non-zero bytes, suitable only for formatted output.
pub struct PStr {
    bytes: Vec<u8>,
}

impl View for PStr {
    type V = Seq<u8>;

    closed spec fn view(&self) -> Seq<u8> {
        self.bytes@
    }
}

impl PStr {
    /// No stored byte is zero: the stored form is terminator-delimited.
    pub open spec fn wf(self) -> bool {
        forall|i: int| 0 <= i < self@.len() ==> self@[i] != 0
    }

    /// Construct a new instance of a string.  The bytes must not contain
    /// a zero, which the stored form reserves for its terminator.
    pub fn new(bytes: Vec<u8>) -> (r: Self)
        requires
            forall|i: int| 0 <= i < bytes@.len() ==> bytes@[i] != 0,
        ensures
            r@ == bytes@,
            r.wf(),
    {
        PStr { bytes }
    }

    /// Walk the bytes, front to back.
    pub fn into_iter(self) -> (it: Iter)
        ensures
            it.bytes() == self@,
            it.pos() == 0,
            it.wf() == self.wf(),
    {
        Iter { bytes: self.bytes, pos: 0 }
    }
}

/// Iterator over the bytes of a [`PStr`].
pub struct Iter {
    bytes: Vec<u8>,
    pos: usize,
}

impl Iter {
    /// The bytes being walked.
    pub closed spec fn bytes(self) -> Seq<u8> {
        self.bytes@
    }

    /// How many bytes were yielded already.
    pub closed spec fn pos(self) -> int {
        self.pos as int
    }

    /// No walked byte is zero.
    pub open spec fn wf(self) -> bool {
        forall|i: int| 0 <= i < self.bytes().len() ==> self.bytes()[i] != 0
    }

    /// The next byte, or nothing once the string is exhausted.  While the
    /// string is well formed, a yielded byte is never zero.
    pub fn next(&mut self) -> (r: Option<u8>)
        requires
            old(self).pos() <= old(self).bytes().len(),
        ensures
            final(self).bytes() == old(self).bytes(),
            r == if old(self).pos() < old(self).bytes().len() {
                Some(old(self).bytes()[old(self).pos()])
            } else {
                None::<u8>
            },
            final(self).pos() == if old(self).pos() < old(self).bytes().len() {
                old(self).pos() + 1
            } else {
                old(self).pos()
            },
            old(self).wf() && r is Some ==> r.unwrap() != 0,
    {
        if self.pos < self.bytes.len() {
            let b = self.bytes[self.pos];
            self.pos = self.pos + 1;
            Some(b)
        } else {
            None
        }
    }
}

impl NanoDisplay for PStr {
    open spec fn display_seq(self) -> Seq<u8> {
        self@
    }

    fn fmt<F: NanoWrite>(self, f: &mut F) {
        let mut i: usize = 0;
        while i < self.bytes.len()
            invariant
                i <= self.bytes@.len(),
                f.written() == old(f).written() + self.bytes@.subrange(0, i as int),
            decreases self.bytes@.len() - i,
        {
            f.write_byte(self.bytes[i]);
            proof {
                assert(old(f).written() + self.bytes@.subrange(0, i as int) + seq![self.bytes@[i as int]]
                    =~= old(f).written() + self.bytes@.subrange(0, i + 1));
            }
            i = i + 1;
        }
        proof {
            assert(self.bytes@.subrange(0, self.bytes@.len() as int) =~= self.bytes@);
        }
    }
}

} // verus!
