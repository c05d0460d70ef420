//! Fixed size ring buffer of per-tick samples.
//!
//! A circular buffer of `SIZE` byte samples with a write cursor.  Insertion
//! evicts the oldest slot in O(1); [`RingBuffer::iter`] walks the samples
//! from the most recently inserted backwards, and
//! [`RingBuffer::recent_sum`] adds up the `k` most recent samples in O(k).

use vstd::pervasive::VecAdditionalExecFns;
use vstd::prelude::*;

verus! {

/// Index `i` reduced into `0..n`, for `-n <= i < n`.
pub open spec fn wrap_index(i: int, n: int) -> int {
    if i < 0 {
        i + n
    } else {
        i
    }
}

/// Sum of the `k` samples most recently written before `cursor`, walking
/// backwards with wrap-around: the most recent sample sits just before the
/// cursor.
pub open spec fn spec_recent_sum(s: Seq<u8>, cursor: int, k: nat) -> int
    decreases k,
{
    if k == 0 {
        0
    } else {
        spec_recent_sum(s, cursor, (k - 1) as nat) + s[wrap_index(cursor - k, s.len() as int)]
    }
}

/// The sum of `k` byte samples lies between 0 and `255 * k`.
pub proof fn lemma_recent_sum_bounds(s: Seq<u8>, cursor: int, k: nat)
    requires
        0 <= cursor < s.len(),
        k <= s.len(),
    ensures
        0 <= spec_recent_sum(s, cursor, k) <= 255 * k,
    decreases k,
{
    if k > 0 {
        lemma_recent_sum_bounds(s, cursor, (k - 1) as nat);
    }
}

/// Fixed size ring buffer.
pub struct RingBuffer<const SIZE: usize> {
    samples: Vec<u8>,
    index: u8,
}

impl<const SIZE: usize> RingBuffer<SIZE> {
    /// The stored samples, slot by slot.
    pub closed spec fn samples(self) -> Seq<u8> {
        self.samples@
    }

    /// The write cursor: the slot the next insertion will overwrite.
    pub closed spec fn cursor(self) -> int {
        self.index as int
    }

    /// The buffer holds exactly `SIZE` slots and the cursor is in bounds.
    pub open spec fn wf(self) -> bool {
        &&& self.samples().len() == SIZE
        &&& 1 <= SIZE <= 256
        &&& 0 <= self.cursor() < SIZE
    }

    /// Create a new buffer filled with zeroes.
    pub fn new() -> (r: Self)
        requires
            1 <= SIZE <= 256,
        ensures
            r.wf(),
            r.samples() == Seq::new(SIZE as nat, |i: int| 0u8),
            r.cursor() == 0,
    {
        let mut samples: Vec<u8> = Vec::new();
        let mut i: usize = 0;
        while i < SIZE
            invariant
                i <= SIZE,
                samples@.len() == i,
                samples@ =~= Seq::new(i as nat, |j: int| 0u8),
            decreases SIZE - i,
        {
            samples.push(0);
            i = i + 1;
        }
        let r = Self { samples, index: 0 };
        proof {
            assert(r.samples() =~= Seq::new(SIZE as nat, |i: int| 0u8));
        }
        r
    }

    /// Put a new value into the buffer returning the discarded value.
    pub fn put(&mut self, value: u8) -> (old_value: u8)
        requires
            old(self).wf(),
        ensures
            final(self).wf(),
            old_value == old(self).samples()[old(self).cursor()],
            final(self).samples() == old(self).samples().update(old(self).cursor(), value),
            final(self).cursor() == (old(self).cursor() + 1) % (SIZE as int),
    {
        let i = self.index as usize;
        let old_value = self.samples[i];
        self.samples.set(i, value);
        self.index = if i == SIZE - 1 {
            0
        } else {
            self.index + 1
        };
        proof {
            if i == SIZE - 1 {
                vstd::arithmetic::div_mod::lemma_mod_self_0(SIZE as int);
            } else {
                vstd::arithmetic::div_mod::lemma_small_mod((i + 1) as nat, SIZE as nat);
            }
        }
        old_value
    }

    /// Returns iterator over values in the buffer, most recent first.
    pub fn iter(&self) -> (it: Iter<'_, SIZE>)
        requires
            self.wf(),
        ensures
            it.wf(),
            it.samples() == self.samples(),
            it.cursor() == self.cursor(),
    {
        Iter { samples: &self.samples, index: self.index }
    }

    /// Sum of the `k` most recently inserted samples.
    pub fn recent_sum(&self, k: usize) -> (sum: u16)
        requires
            self.wf(),
            k <= SIZE,
        ensures
            sum as int == spec_recent_sum(self.samples(), self.cursor(), k as nat),
    {
        let mut it = self.iter();
        let mut sum: u16 = 0;
        let mut i: usize = 0;
        while i < k
            invariant
                i <= k <= SIZE,
                self.wf(),
                it.wf(),
                it.samples() == self.samples(),
                it.cursor() == wrap_index(self.cursor() - i, SIZE as int),
                sum as int == spec_recent_sum(self.samples(), self.cursor(), i as nat),
            decreases k - i,
        {
            proof {
                lemma_recent_sum_bounds(self.samples(), self.cursor(), (i + 1) as nat);
            }
            let v = it.next();
            sum = sum + v as u16;
            i = i + 1;
        }
        sum
    }
}

/// Iterator over ring buffer data, most recent sample first.
pub struct Iter<'a, const SIZE: usize> {
    samples: &'a Vec<u8>,
    index: u8,
}

impl<'a, const SIZE: usize> Iter<'a, SIZE> {
    /// The samples being walked.
    pub closed spec fn samples(self) -> Seq<u8> {
        self.samples@
    }

    /// The position just past the sample the next call will yield.
    pub closed spec fn cursor(self) -> int {
        self.index as int
    }

    /// The walked buffer holds `SIZE` slots and the cursor is in bounds.
    pub open spec fn wf(self) -> bool {
        &&& self.samples().len() == SIZE
        &&& 1 <= SIZE <= 256
        &&& 0 <= self.cursor() < SIZE
    }

    /// Step backwards and yield the sample there; the walk is cyclic and
    /// never ends, as the underlying buffer is circular.
    pub fn next(&mut self) -> (r: u8)
        requires
            old(self).wf(),
        ensures
            final(self).wf(),
            final(self).samples() == old(self).samples(),
            final(self).cursor() == wrap_index(old(self).cursor() - 1, SIZE as int),
            r == old(self).samples()[final(self).cursor()],
    {
        self.index = if self.index == 0 {
            (SIZE - 1) as u8
        } else {
            self.index - 1
        };
        self.samples[self.index as usize]
    }
}

} // verus!
