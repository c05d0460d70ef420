//! Data that is shared by the interrupt handlers and the main loop.
//!
//! On the device, every access to this record from the main loop must sit
//! inside a critical section that suppresses interrupt delivery, and each
//! handler runs with interrupts already disabled.  Accesses are therefore
//! serialized: each operation below is one such atomic step, and exclusive
//! access is expressed here through `&mut`.  Handlers publish flag-and-value
//! pairs ([`SharedData::record_pulse`], [`SharedData::record_tick`]), and
//! the main loop drains them ([`SharedData::drain_pulse`],
//! [`SharedData::drain_tick`]); no other access to the fields exists.

use vstd::prelude::*;

use crate::events::EventFlags;

verus! {

/// Abstract value of the shared record: the raw pulse counter, the latched
/// counts-per-second, the mute flag, and the two event flags.
pub struct SharedView {
    /// Number of GM events since the last tick.
    pub count: u16,
    /// GM counts per second latched by the last tick.
    pub cps: u16,
    /// Whether the beeper is muted.
    pub no_beep: bool,
    /// Whether a GM pulse is pending.
    pub gm: bool,
    /// Whether a tick is pending.
    pub tick: bool,
}

/// Data that is shared by multiple tasks.
pub struct SharedData {
    /// Number of GM events that has occurred.
    count: u16,
    /// GM counts per second, updated once a second.
    cps: u16,
    /// Flag used to mute beeper.
    no_beep: bool,
    /// Flags for tick and GM events.
    event_flags: EventFlags,
}

impl View for SharedData {
    type V = SharedView;

    closed spec fn view(&self) -> SharedView {
        SharedView {
            count: self.count,
            cps: self.cps,
            no_beep: self.no_beep,
            gm: self.event_flags.gm(),
            tick: self.event_flags.tick(),
        }
    }
}

/// The state left by a pulse handler: the raw counter incremented with
/// saturation, the pulse flag set, everything else untouched.
pub open spec fn spec_pulse(m: SharedView) -> SharedView {
    SharedView {
        count: if m.count < 0xFFFF {
            (m.count + 1) as u16
        } else {
            m.count
        },
        gm: true,
        ..m
    }
}

/// The state left by a tick handler: the raw counter latched into the
/// counts-per-second field and replaced by zero, the tick flag set.
pub open spec fn spec_tick(m: SharedView) -> SharedView {
    SharedView { count: 0, cps: m.count, tick: true, ..m }
}

/// The state left by the debounced button handler: the mute flag toggled
/// when the button was still pressed after the settle delay.
pub open spec fn spec_button(m: SharedView, still_pressed: bool) -> SharedView {
    SharedView { no_beep: if still_pressed {
        !m.no_beep
    } else {
        m.no_beep
    }, ..m }
}

/// The state left by draining the pulse flag.
pub open spec fn spec_drain_pulse(m: SharedView) -> SharedView {
    SharedView { gm: false, ..m }
}

/// The state left by draining the tick flag.
pub open spec fn spec_drain_tick(m: SharedView) -> SharedView {
    SharedView { tick: false, ..m }
}

impl SharedData {
    /// The event-flag bitset carries no stray bits.
    pub closed spec fn wf(self) -> bool {
        self.event_flags.wf()
    }

    /// Create the record with all fields zeroed.
    pub fn new() -> (r: Self)
        ensures
            r.wf(),
            r@ == (SharedView { count: 0, cps: 0, no_beep: false, gm: false, tick: false }),
    {
        Self { count: 0, cps: 0, no_beep: false, event_flags: EventFlags::new() }
    }

    /// Pulse handler step: count the pulse (saturating, never wrapping) and
    /// set the pulse flag.  Runs with interrupts disabled on the device, so
    /// it is one atomic step.
    pub fn record_pulse(&mut self)
        ensures
            final(self)@ == spec_pulse(old(self)@),
            final(self).wf() == old(self).wf(),
    {
        if self.count < 0xFFFF {
            self.count = self.count + 1;
        }
        self.event_flags.set_gm_event();
    }

    /// Tick handler step: latch the raw counter into the counts-per-second
    /// field, reset it, and set the tick flag, all in one atomic step with
    /// no loops (the handler must run in constant time).
    pub fn record_tick(&mut self)
        ensures
            final(self)@ == spec_tick(old(self)@),
            final(self).wf() == old(self).wf(),
    {
        self.cps = self.count;
        self.count = 0;
        self.event_flags.set_tick_event();
    }

    /// Debounced button step: toggle the mute flag if the button was still
    /// pressed when re-checked after the settle delay; a bounce that has
    /// already released leaves the flag alone.
    pub fn button_event(&mut self, still_pressed: bool)
        ensures
            final(self)@ == spec_button(old(self)@, still_pressed),
            final(self).wf() == old(self).wf(),
    {
        if still_pressed {
            self.no_beep = !self.no_beep;
        }
    }

    /// Atomically take the pulse flag and read the mute flag.
    pub fn drain_pulse(&mut self) -> (r: (bool, bool))
        ensures
            r.0 == old(self)@.gm,
            r.1 == old(self)@.no_beep,
            final(self)@ == spec_drain_pulse(old(self)@),
            final(self).wf() == old(self).wf(),
    {
        let pulse = self.event_flags.take_gm_event();
        (pulse, self.no_beep)
    }

    /// Atomically take the tick flag; if it was set, return the latched
    /// counts-per-second value that the same handler invocation stored.
    pub fn drain_tick(&mut self) -> (r: Option<u16>)
        ensures
            r == if old(self)@.tick {
                Some(old(self)@.cps)
            } else {
                None::<u16>
            },
            final(self)@ == spec_drain_tick(old(self)@),
            final(self).wf() == old(self).wf(),
    {
        let ticked = self.event_flags.take_tick_event();
        if ticked {
            Some(self.cps)
        } else {
            None
        }
    }

    /// Whether any event flag is pending.
    pub fn has_any_event(&self) -> (r: bool)
        requires
            self.wf(),
        ensures
            r == (self@.gm || self@.tick),
    {
        self.event_flags.has_any_event()
    }
}

/// The state after `n` consecutive pulse handler invocations.
pub open spec fn apply_pulses(m: SharedView, n: nat) -> SharedView
    decreases n,
{
    if n == 0 {
        m
    } else {
        spec_pulse(apply_pulses(m, (n - 1) as nat))
    }
}

/// A run of pulses accumulates into the raw counter, saturating at the
/// 16-bit maximum, and touches nothing but the counter and the pulse flag.
pub proof fn lemma_pulses_accumulate(m: SharedView, n: nat)
    ensures
        apply_pulses(m, n).count == if m.count + n <= 0xFFFF {
            m.count + n
        } else {
            0xFFFF
        },
        apply_pulses(m, n).cps == m.cps,
        apply_pulses(m, n).no_beep == m.no_beep,
        apply_pulses(m, n).tick == m.tick,
        apply_pulses(m, n).gm == (m.gm || n > 0),
    decreases n,
{
    if n > 0 {
        lemma_pulses_accumulate(m, (n - 1) as nat);
    }
}

/// Law: after any sequence of `n` pulse handler invocations followed by one
/// tick handler invocation with no intervening tick, the latched
/// counts-per-second equals `n` (clamped to the 16-bit saturation ceiling)
/// and the raw counter is back to zero.
pub proof fn lemma_tick_latches_pulse_count(m: SharedView, n: nat)
    requires
        m.count == 0,
    ensures
        spec_tick(apply_pulses(m, n)).cps == if n <= 0xFFFF {
            n
        } else {
            0xFFFF
        },
        spec_tick(apply_pulses(m, n)).count == 0,
{
    lemma_pulses_accumulate(m, n);
}

/// Law: a pulse flag is never lost around a drain.  Taking the flag is a
/// single atomic step, so a pulse handler invocation lands either before
/// the drain, which then observes the flag set, or after it, in which case
/// the flag stands again and the next drain observes it; no interleaving
/// between a read phase and a clear phase exists.
pub proof fn lemma_pulse_flag_not_lost(m: SharedView)
    ensures
        spec_pulse(m).gm,
        spec_pulse(spec_drain_pulse(m)).gm,
{
}

} // verus!
