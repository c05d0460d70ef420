//! The sleep/wake/dispatch cycle of the main loop.
//!
//! The loop waits for an event, services pulse feedback, services the
//! tick report, and repeats forever.  The wait step must check the event
//! flags and arm suspension in one indivisible action, so that a flag set
//! between the check and the suspend request can never leave the device
//! asleep; [`Machine::wait_for_event`] models exactly that indivisible
//! step, and [`lemma_no_missed_wakeup`] states the resulting guarantee.
//!
//! The outer dispatch that performs the actual suspension and hands
//! hardware interrupts to [`Machine::deliver`] is wiring outside this
//! core, as are the fixed busy-wait durations.

use vstd::prelude::*;

use crate::beeper::Beeper;
use crate::led::Led;
use crate::shared::SharedData;
use crate::shared::SharedView;
use crate::shared::spec_button;
use crate::shared::spec_drain_pulse;
use crate::shared::spec_pulse;
use crate::shared::spec_tick;

verus! {

/// An interrupt as seen by the core.
#[derive(Clone, Copy, Debug, PartialEq, Eq, Structural)]
pub enum Event {
    /// A GM pulse edge was detected.
    Pulse,
    /// The periodic tick elapsed.
    Tick,
    /// The mute button fired; the payload tells whether it was still
    /// pressed when re-checked after the debounce settle delay.
    Button(bool),
}

/// What an interrupt handler leaves in the shared record.
pub open spec fn spec_handle(m: SharedView, e: Event) -> SharedView {
    match e {
        Event::Pulse => spec_pulse(m),
        Event::Tick => spec_tick(m),
        Event::Button(still_pressed) => spec_button(m, still_pressed),
    }
}

/// Abstract state of the device: the shared record plus whether the core
/// is suspended awaiting an interrupt.
pub struct MachineView {
    /// The shared record.
    pub shared: SharedView,
    /// Whether the core is suspended.
    pub asleep: bool,
}

/// The device as the core sees it: the shared record and the suspension
/// state driven by the wait step.
pub struct Machine {
    /// The record shared between handlers and the main loop.
    pub shared: SharedData,
    /// Whether the core is suspended awaiting an interrupt.
    pub asleep: bool,
}

impl View for Machine {
    type V = MachineView;

    open spec fn view(&self) -> MachineView {
        MachineView { shared: self.shared@, asleep: self.asleep }
    }
}

/// The indivisible wait step: suspend exactly when no event is pending.
pub open spec fn spec_wait(m: MachineView) -> MachineView {
    MachineView { asleep: !(m.shared.gm || m.shared.tick), ..m }
}

/// Delivering an interrupt always wakes the core and runs the handler.
pub open spec fn spec_deliver(m: MachineView, e: Event) -> MachineView {
    MachineView { shared: spec_handle(m.shared, e), asleep: false }
}

impl Machine {
    /// A freshly started device: all shared fields zero, awake.
    pub fn new() -> (r: Self)
        ensures
            r.shared.wf(),
            r@.shared == (SharedView { count: 0, cps: 0, no_beep: false, gm: false, tick: false }),
            !r@.asleep,
    {
        Machine { shared: SharedData::new(), asleep: false }
    }

    /// Whether the core is suspended awaiting an interrupt.
    pub fn is_asleep(&self) -> (r: bool)
        ensures
            r == self@.asleep,
    {
        self.asleep
    }

    /// Wait for an event to occur: check the flags and request suspension
    /// in one indivisible action.  If a flag is already set, suspension is
    /// skipped and the loop goes on immediately.
    pub fn wait_for_event(&mut self)
        requires
            old(self).shared.wf(),
        ensures
            final(self)@ == spec_wait(old(self)@),
            final(self).shared.wf(),
    {
        if !self.shared.has_any_event() {
            self.asleep = true;
        } else {
            self.asleep = false;
        }
    }

    /// An enabled interrupt arrives: the core resumes (if suspended) and
    /// the handler runs to completion.
    pub fn deliver(&mut self, e: Event)
        ensures
            final(self)@ == spec_deliver(old(self)@, e),
            final(self).shared.wf() == old(self).shared.wf(),
    {
        self.asleep = false;
        match e {
            Event::Pulse => self.shared.record_pulse(),
            Event::Tick => self.shared.record_tick(),
            Event::Button(still_pressed) => self.shared.button_event(still_pressed),
        }
    }
}

/// Pulse feedback step: drain the pulse flag, and on a pulse assert the
/// indicator outputs — the beeper only when not muted.  The caller holds
/// the outputs for the fixed flash duration (a busy-wait on the device,
/// outside this core) and then deasserts them with [`finish_feedback`].
pub fn check_event(led: &mut Led, beeper: &mut Beeper, shared: &mut SharedData) -> (active: bool)
    ensures
        final(shared)@ == spec_drain_pulse(old(shared)@),
        final(shared).wf() == old(shared).wf(),
        active == old(shared)@.gm,
        final(led).on() == (old(led).on() || old(shared)@.gm),
        final(beeper).on() == (old(beeper).on() || (old(shared)@.gm && !old(shared)@.no_beep)),
{
    let (event_flag, no_beep) = shared.drain_pulse();

    if event_flag {
        led.turn_on();

        if !no_beep {
            beeper.turn_on();
        }
    }
    event_flag
}

/// Deassert the indicator outputs at the end of the feedback flash.
pub fn finish_feedback(led: &mut Led, beeper: &mut Beeper)
    ensures
        !final(led).on(),
        !final(beeper).on(),
{
    led.turn_off();
    beeper.turn_off();
}

/// Law: an event can never slip between the emptiness check and the
/// suspend request.  The wait step is one indivisible action, so an
/// interrupt lands either before it — then a flag is already pending and
/// the step does not suspend — or after it — then its delivery itself
/// wakes the core at once.  Either way the device does not stay asleep
/// with an event pending.
pub proof fn lemma_no_missed_wakeup(m: MachineView, e: Event)
    ensures
        !spec_deliver(spec_wait(m), e).asleep,
        (m.shared.gm || m.shared.tick) ==> !spec_wait(m).asleep,
{
}

} // verus!
