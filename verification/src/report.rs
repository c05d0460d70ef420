//! Report generation: one line per tick over the serial sink.
//!
//! On a pending tick, the latched counts-per-second value is drained, fed
//! into the smoother (clamped into the sample range), run through the mode
//! selection, and emitted as the line
//! `"CPS, <n>, CPM, <m>, uSv/hr, <d.dd>, <MODE>\r\n"`,
//! whose exact bytes [`spec_report_line`] pins down.

use vstd::prelude::*;

use crate::LONG_PERIOD;
use crate::SCALE_FACTOR;
use crate::SHORT_PERIOD;
use crate::estimator::dose_rate;
use crate::estimator::estimate;
use crate::estimator::spec_estimate;
use crate::fixed::spec_fixed2;
use crate::nano_fmt::NanoDisplay;
use crate::nano_fmt::NanoWrite;
use crate::nano_fmt::spec_decimal;
use crate::progmem::PStr;
use crate::ring_buffer::spec_recent_sum;
use crate::shared::SharedData;
use crate::shared::spec_drain_tick;
use crate::smoother::Smoother;

verus! {

/// Narrowing a per-tick count into the 8-bit sample range clamps at the
/// sample maximum; the loss is made up for by the instant mode.
pub open spec fn spec_clamp_sample(cps: u16) -> u8 {
    if cps > 255 {
        255u8
    } else {
        cps as u8
    }
}

/// The bytes of `"CPS, "`.
pub open spec fn lit_cps() -> Seq<u8> {
    seq![67u8, 80u8, 83u8, 44u8, 32u8]
}

/// The bytes of `", CPM, "`.
pub open spec fn lit_cpm() -> Seq<u8> {
    seq![44u8, 32u8, 67u8, 80u8, 77u8, 44u8, 32u8]
}

/// The bytes of `", uSv/hr, "`.
pub open spec fn lit_usv() -> Seq<u8> {
    seq![44u8, 32u8, 117u8, 83u8, 118u8, 47u8, 104u8, 114u8, 44u8, 32u8]
}

/// The bytes of `", "`.
pub open spec fn lit_sep() -> Seq<u8> {
    seq![44u8, 32u8]
}

/// The bytes of `"\r\n"`.
pub open spec fn lit_crlf() -> Seq<u8> {
    seq![13u8, 10u8]
}

/// The exact bytes of one report line, given the drained counts-per-second
/// value and the two windowed sums of the already-updated smoother.
pub open spec fn spec_report_line(cps: u16, slow_sum: u16, short_sum: u16) -> Seq<u8> {
    let rate = spec_estimate(cps, slow_sum, short_sum);
    let cpm = rate.spec_cpm();
    let dose = cpm as int * SCALE_FACTOR as int / 100;
    lit_cps() + spec_decimal(cps as nat) + lit_cpm() + spec_decimal(cpm as nat) + lit_usv()
        + spec_fixed2(dose as nat) + lit_sep() + rate.spec_label() + lit_crlf()
}

/// Emit a literal piece of the report line.
fn emit_literal<W: NanoWrite>(w: &mut W, bytes: Vec<u8>)
    requires
        forall|i: int| 0 <= i < bytes@.len() ==> bytes@[i] != 0,
    ensures
        final(w).written() == old(w).written() + bytes@,
{
    PStr::new(bytes).fmt(w);
}

/// Log data over the serial port: drain the tick flag, and if a tick was
/// pending, feed the smoother and emit one report line.  Without a
/// pending tick nothing is written and the smoother is untouched.
pub fn send_report<W: NanoWrite>(w: &mut W, smoother: &mut Smoother, shared: &mut SharedData)
    requires
        old(smoother).wf(),
    ensures
        final(smoother).wf(),
        final(shared)@ == spec_drain_tick(old(shared)@),
        final(shared).wf() == old(shared).wf(),
        !old(shared)@.tick ==> *final(smoother) == *old(smoother) && final(w).written() == old(
            w,
        ).written(),
        old(shared)@.tick ==> final(smoother).samples() == old(smoother).samples().update(
            old(smoother).cursor(),
            spec_clamp_sample(old(shared)@.cps),
        ),
        old(shared)@.tick ==> final(smoother).cursor() == (old(smoother).cursor() + 1) % (
        LONG_PERIOD as int),
        old(shared)@.tick ==> final(w).written() == old(w).written() + spec_report_line(
            old(shared)@.cps,
            final(smoother).slow_cpm(),
            spec_recent_sum(
                final(smoother).samples(),
                final(smoother).cursor(),
                SHORT_PERIOD as nat,
            ) as u16,
        ),
{
    let report = shared.drain_tick();

    if let Some(cps) = report {
        emit_literal(w, vec![67u8, 80u8, 83u8, 44u8, 32u8]);
        (cps as u32).fmt(w);
        emit_literal(w, vec![44u8, 32u8, 67u8, 80u8, 77u8, 44u8, 32u8]);

        let count = if cps > 255 {
            255u8
        } else {
            cps as u8
        };
        smoother.put(count);

        let slow_sum = smoother.slow_sum();
        let short_sum = smoother.short_sum();
        let rate = estimate(cps, slow_sum, short_sum);
        let cpm = rate.cpm();

        cpm.fmt(w);
        emit_literal(w, vec![44u8, 32u8, 117u8, 83u8, 118u8, 47u8, 104u8, 114u8, 44u8, 32u8]);

        let usv = dose_rate(cpm);
        usv.fmt(w);
        emit_literal(w, vec![44u8, 32u8]);
        rate.label().fmt(w);
        emit_literal(w, vec![13u8, 10u8]);

        proof {
            assert(final(w).written() =~= old(w).written() + spec_report_line(
                old(shared)@.cps,
                final(smoother).slow_cpm(),
                spec_recent_sum(
                    final(smoother).samples(),
                    final(smoother).cursor(),
                    SHORT_PERIOD as nat,
                ) as u16,
            ));
        }
    }
}

} // verus!
