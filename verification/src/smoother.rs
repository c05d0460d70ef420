//! Windowed smoother: ring buffer plus running long-window sum.
//!
//! One sample is inserted per tick by the report step (single writer,
//! never from an interrupt).  The running sum `slow_cpm` always equals the
//! sum of all buffer slots, which is the sum of the `LONG_PERIOD` most
//! recently inserted samples, zero-padded before the buffer first fills;
//! [`lemma_slow_sum_matches_history`] states that law against any
//! insertion history.

use vstd::prelude::*;

use crate::LONG_PERIOD;
use crate::SHORT_PERIOD;
use crate::ring_buffer::RingBuffer;
use crate::ring_buffer::spec_recent_sum;

verus! {

/// Sum of a sequence of byte samples.
pub open spec fn sum_bytes(s: Seq<u8>) -> int
    decreases s.len(),
{
    if s.len() == 0 {
        0
    } else {
        sum_bytes(s.drop_last()) + s.last()
    }
}

/// The sum of byte samples lies between 0 and `255 *` their number.
pub proof fn lemma_sum_bytes_bounds(s: Seq<u8>)
    ensures
        0 <= sum_bytes(s) <= 255 * s.len(),
    decreases s.len(),
{
    if s.len() > 0 {
        lemma_sum_bytes_bounds(s.drop_last());
    }
}

/// The sum of byte samples is at least any single sample.
pub proof fn lemma_sum_bytes_ge_elem(s: Seq<u8>, i: int)
    requires
        0 <= i < s.len(),
    ensures
        sum_bytes(s) >= s[i],
    decreases s.len(),
{
    lemma_sum_bytes_bounds(s.drop_last());
    if i < s.len() - 1 {
        lemma_sum_bytes_ge_elem(s.drop_last(), i);
        lemma_sum_bytes_bounds(s);
        assert(sum_bytes(s) == sum_bytes(s.drop_last()) + s.last());
    }
}

/// Overwriting one sample changes the sum by the difference.
pub proof fn lemma_sum_bytes_update(s: Seq<u8>, i: int, v: u8)
    requires
        0 <= i < s.len(),
    ensures
        sum_bytes(s.update(i, v)) == sum_bytes(s) - s[i] + v,
    decreases s.len(),
{
    let t = s.update(i, v);
    if i == s.len() - 1 {
        assert(t.drop_last() =~= s.drop_last());
    } else {
        assert(t.drop_last() =~= s.drop_last().update(i, v));
        lemma_sum_bytes_update(s.drop_last(), i, v);
    }
}

/// A sequence of zero samples sums to zero.
pub proof fn lemma_sum_bytes_zeros(n: nat)
    ensures
        sum_bytes(Seq::new(n, |i: int| 0u8)) == 0,
    decreases n,
{
    if n > 0 {
        assert(Seq::new(n, |i: int| 0u8).drop_last() =~= Seq::new((n - 1) as nat, |i: int| 0u8));
        lemma_sum_bytes_zeros((n - 1) as nat);
    }
}

/// The smoother: per-tick sample window plus its running sum.
pub struct Smoother {
    buffer: RingBuffer<LONG_PERIOD>,
    /// GM counts per minute in slow mode.
    slow_cpm: u16,
}

impl Smoother {
    /// The stored samples, slot by slot.
    pub closed spec fn samples(self) -> Seq<u8> {
        self.buffer.samples()
    }

    /// The slot the next insertion will overwrite.
    pub closed spec fn cursor(self) -> int {
        self.buffer.cursor()
    }

    /// The running long-window sum.
    pub closed spec fn slow_cpm(self) -> u16 {
        self.slow_cpm
    }

    /// The buffer is well formed and the running sum equals the sum of all
    /// its slots.
    pub open spec fn wf(self) -> bool {
        &&& self.samples().len() == LONG_PERIOD
        &&& 0 <= self.cursor() < LONG_PERIOD
        &&& self.slow_cpm() as int == sum_bytes(self.samples())
    }

    /// Create an empty smoother: all slots zero, running sum zero.
    pub fn new() -> (r: Self)
        ensures
            r.wf(),
            r.samples() == Seq::new(LONG_PERIOD as nat, |i: int| 0u8),
            r.cursor() == 0,
            r.slow_cpm() == 0,
    {
        let r = Self { buffer: RingBuffer::new(), slow_cpm: 0 };
        proof {
            lemma_sum_bytes_zeros(LONG_PERIOD as nat);
        }
        r
    }

    /// Insert one per-tick sample, evicting the oldest slot and updating
    /// the running sum in O(1).
    pub fn put(&mut self, sample: u8)
        requires
            old(self).wf(),
        ensures
            final(self).wf(),
            final(self).samples() == old(self).samples().update(old(self).cursor(), sample),
            final(self).cursor() == (old(self).cursor() + 1) % (LONG_PERIOD as int),
            final(self).slow_cpm() == old(self).slow_cpm() - old(self).samples()[old(
                self,
            ).cursor()] + sample,
    {
        proof {
            lemma_sum_bytes_ge_elem(self.samples(), self.cursor());
            lemma_sum_bytes_bounds(self.samples());
            lemma_sum_bytes_update(self.samples(), self.cursor(), sample);
        }
        let oldest = self.buffer.put(sample);
        self.slow_cpm = self.slow_cpm - oldest as u16;
        self.slow_cpm = self.slow_cpm + sample as u16;
    }

    /// The running long-window sum, read out.
    pub fn slow_sum(&self) -> (r: u16)
        ensures
            r == self.slow_cpm(),
    {
        self.slow_cpm
    }

    /// Sum of the `SHORT_PERIOD` most recently inserted samples.
    pub fn short_sum(&self) -> (r: u16)
        requires
            self.wf(),
        ensures
            r as int == spec_recent_sum(self.samples(), self.cursor(), SHORT_PERIOD as nat),
    {
        self.buffer.recent_sum(SHORT_PERIOD)
    }
}

/// The buffer contents after inserting the samples of `h`, in order, into
/// a fresh buffer: insertion number `i` lands in slot `i % LONG_PERIOD`.
pub open spec fn buffer_after(h: Seq<u8>) -> Seq<u8>
    decreases h.len(),
{
    if h.len() == 0 {
        Seq::new(LONG_PERIOD as nat, |i: int| 0u8)
    } else {
        buffer_after(h.drop_last()).update(
            ((h.len() - 1) as int) % (LONG_PERIOD as int),
            h.last(),
        )
    }
}

/// The buffer keeps its `LONG_PERIOD` slots whatever was inserted.
pub proof fn lemma_buffer_after_len(h: Seq<u8>)
    ensures
        buffer_after(h).len() == LONG_PERIOD,
    decreases h.len(),
{
    if h.len() > 0 {
        lemma_buffer_after_len(h.drop_last());
    }
}

/// A single sample sums to itself.
pub proof fn lemma_sum_bytes_singleton(x: u8)
    ensures
        sum_bytes(seq![x]) == x,
{
    assert(seq![x].drop_last() =~= Seq::<u8>::empty());
    assert(sum_bytes(Seq::<u8>::empty()) == 0);
    assert(seq![x].last() == x);
}

/// The `LONG_PERIOD` most recently inserted samples of a history, or all
/// of it while it is still shorter than the window.
pub open spec fn last_window(h: Seq<u8>) -> Seq<u8> {
    if h.len() <= LONG_PERIOD {
        h
    } else {
        h.subrange(h.len() - (LONG_PERIOD as int), h.len() as int)
    }
}

/// The smoother realizes insertion history `h`: its slots are exactly
/// those of a fresh buffer fed `h`, and its cursor stands one past the
/// last insertion.  [`Smoother::new`] establishes this for the empty
/// history, and [`lemma_put_follows`] carries it across each `put`.
pub open spec fn follows(s: Smoother, h: Seq<u8>) -> bool {
    &&& s.samples() == buffer_after(h)
    &&& s.cursor() == (h.len() as int) % (LONG_PERIOD as int)
}

/// A fresh smoother realizes the empty history.
pub proof fn lemma_new_follows(s: Smoother)
    requires
        s.samples() == Seq::new(LONG_PERIOD as nat, |i: int| 0u8),
        s.cursor() == 0,
    ensures
        follows(s, Seq::<u8>::empty()),
{
    vstd::arithmetic::div_mod::lemma_small_mod(0, LONG_PERIOD as nat);
}

/// One `put`, as pinned down by its postcondition, extends the realized
/// history by the inserted sample.
pub proof fn lemma_put_follows(pre: Smoother, post: Smoother, h: Seq<u8>, v: u8)
    requires
        follows(pre, h),
        post.samples() == pre.samples().update(pre.cursor(), v),
        post.cursor() == (pre.cursor() + 1) % (LONG_PERIOD as int),
    ensures
        follows(post, h.push(v)),
{
    let n = LONG_PERIOD as int;
    assert(h.push(v).drop_last() =~= h);
    vstd::arithmetic::div_mod::lemma_small_mod(1, LONG_PERIOD as nat);
    vstd::arithmetic::div_mod::lemma_add_mod_noop(h.len() as int, 1, n);
    assert(post.cursor() == (h.len() as int + 1) % n);
}

/// While the history is no longer than the window, the buffer is the
/// history itself, padded with the zeroes it started from.
proof fn lemma_buffer_after_prefill(h: Seq<u8>)
    requires
        h.len() <= LONG_PERIOD,
    ensures
        buffer_after(h) =~= Seq::new(
            LONG_PERIOD as nat,
            |j: int| if j < h.len() { h[j] } else { 0u8 },
        ),
    decreases h.len(),
{
    if h.len() > 0 {
        lemma_buffer_after_prefill(h.drop_last());
        vstd::arithmetic::div_mod::lemma_small_mod((h.len() - 1) as nat, LONG_PERIOD as nat);
    }
}

/// Once the history has filled the window, the slots hold the last
/// `LONG_PERIOD` insertions, arranged cyclically from the cursor.
proof fn lemma_buffer_after_cyclic(h: Seq<u8>, d: int)
    requires
        h.len() >= LONG_PERIOD,
        0 <= d < LONG_PERIOD,
    ensures
        buffer_after(h)[(h.len() + d) % (LONG_PERIOD as int)] == h[h.len() - LONG_PERIOD + d],
    decreases h.len(),
{
    let n = LONG_PERIOD as int;
    let m = h.len() as int;
    if m == n {
        lemma_buffer_after_prefill(h);
        vstd::arithmetic::div_mod::lemma_mod_multiples_vanish(1, d, n);
        vstd::arithmetic::div_mod::lemma_small_mod(d as nat, n as nat);
        assert((m + d) % n == d);
    } else {
        let w = (m - 1) % n;
        vstd::arithmetic::div_mod::lemma_mod_bound(m - 1, n);
        // (m + d) % n cycles one step ahead of the previous write slot.
        vstd::arithmetic::div_mod::lemma_fundamental_div_mod(m - 1, n);
        vstd::arithmetic::div_mod::lemma_mod_multiples_vanish((m - 1) / n, w + d + 1, n);
        assert((m + d) % n == (w + d + 1) % n);
        let s = if w + d + 1 < n {
            w + d + 1
        } else {
            w + d + 1 - n
        };
        if w + d + 1 < n {
            vstd::arithmetic::div_mod::lemma_small_mod((w + d + 1) as nat, n as nat);
        } else {
            vstd::arithmetic::div_mod::lemma_mod_multiples_vanish(1, w + d + 1 - n, n);
            vstd::arithmetic::div_mod::lemma_small_mod((w + d + 1 - n) as nat, n as nat);
        }
        assert((m + d) % n == s);
        lemma_buffer_after_len(h.drop_last());
        assert(buffer_after(h) == buffer_after(h.drop_last()).update(w, h.last()));
        if d == n - 1 {
            assert(s == w);
            assert(buffer_after(h)[s] == h.last());
        } else {
            assert(s != w);
            lemma_buffer_after_cyclic(h.drop_last(), d + 1);
            assert((m - 1 + (d + 1)) % n == s);
            assert(buffer_after(h)[s] == buffer_after(h.drop_last())[s]);
        }
    }
}

/// Concatenation splits the sum.
pub proof fn lemma_sum_bytes_concat(a: Seq<u8>, b: Seq<u8>)
    ensures
        sum_bytes(a + b) == sum_bytes(a) + sum_bytes(b),
    decreases b.len(),
{
    if b.len() == 0 {
        assert(a + b =~= a);
    } else {
        assert((a + b).drop_last() =~= a + b.drop_last());
        lemma_sum_bytes_concat(a, b.drop_last());
    }
}

/// Law: after any insertion history, the sum of the buffer slots equals
/// the sum of the `LONG_PERIOD` most recent insertions (with the implicit
/// zeroes before the buffer first fills).
pub proof fn lemma_slow_sum_matches_history(h: Seq<u8>)
    ensures
        sum_bytes(buffer_after(h)) == sum_bytes(last_window(h)),
    decreases h.len(),
{
    let n = LONG_PERIOD as int;
    let m = h.len() as int;
    if m <= n {
        lemma_buffer_after_prefill(h);
        assert(buffer_after(h) =~= h + Seq::new((n - m) as nat, |i: int| 0u8));
        lemma_sum_bytes_concat(h, Seq::new((n - m) as nat, |i: int| 0u8));
        lemma_sum_bytes_zeros((n - m) as nat);
    } else {
        let h1 = h.drop_last();
        let w = (m - 1) % n;
        let v = h.last();
        lemma_slow_sum_matches_history(h1);
        lemma_buffer_after_len(h1);
        vstd::arithmetic::div_mod::lemma_mod_bound(m - 1, n);
        lemma_sum_bytes_update(buffer_after(h1), w, v);
        // The evicted slot holds the insertion that fell out of the window.
        lemma_buffer_after_cyclic(h1, 0);
        assert(buffer_after(h1)[w] == h[m - 1 - n]);
        // Reshape the two windows around their shared middle part.
        let mid = h.subrange(m - n, m - 1);
        assert(last_window(h1) =~= seq![h[m - 1 - n]] + mid);
        assert(last_window(h) =~= mid + seq![h[m - 1]]);
        lemma_sum_bytes_concat(seq![h[m - 1 - n]], mid);
        lemma_sum_bytes_concat(mid, seq![h[m - 1]]);
        lemma_sum_bytes_singleton(h[m - 1 - n]);
        lemma_sum_bytes_singleton(h[m - 1]);
    }
}

/// Law: after any sequence of `put` calls, the running sum `slow_cpm`
/// equals the sum of the last `min(calls, LONG_PERIOD)` inserted samples.
pub proof fn lemma_slow_sum_is_window_sum(s: Smoother, h: Seq<u8>)
    requires
        s.wf(),
        follows(s, h),
    ensures
        s.slow_cpm() as int == sum_bytes(last_window(h)),
{
    lemma_slow_sum_matches_history(h);
}

} // verus!
