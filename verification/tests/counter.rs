use geiger::beeper::Beeper;
use geiger::control::check_event;
use geiger::control::finish_feedback;
use geiger::control::Event;
use geiger::control::Machine;
use geiger::estimator::dose_rate;
use geiger::estimator::estimate;
use geiger::estimator::Rate;
use geiger::fixed::Fixed2;
use geiger::led::Led;
use geiger::nano_fmt::ByteSink;
use geiger::nano_fmt::NanoDisplay;
use geiger::progmem::PStr;
use geiger::report::send_report;
use geiger::ring_buffer::RingBuffer;
use geiger::shared::SharedData;
use geiger::smoother::Smoother;
use geiger::timer::Timer;

fn rendered<T: NanoDisplay>(value: T) -> String {
    let mut sink = ByteSink::new();
    value.fmt(&mut sink);
    String::from_utf8(sink.bytes().clone()).unwrap()
}

#[test]
fn pulses_then_tick_latch_the_count() {
    let mut shared = SharedData::new();
    for _ in 0..3 {
        shared.record_pulse();
    }
    shared.record_tick();
    assert_eq!(shared.drain_tick(), Some(3));
    // The raw counter was reset: the next tick latches zero.
    shared.record_tick();
    assert_eq!(shared.drain_tick(), Some(0));
}

#[test]
fn raw_counter_saturates() {
    let mut shared = SharedData::new();
    for _ in 0..70_000u32 {
        shared.record_pulse();
    }
    shared.record_tick();
    assert_eq!(shared.drain_tick(), Some(u16::MAX));
}

#[test]
fn drain_tick_without_tick_is_none() {
    let mut shared = SharedData::new();
    shared.record_pulse();
    assert_eq!(shared.drain_tick(), None);
}

#[test]
fn pulse_flag_is_never_lost() {
    let mut shared = SharedData::new();
    shared.record_pulse();
    let (pulse, _) = shared.drain_pulse();
    assert!(pulse);
    // A pulse landing right after a drain is seen by the next drain.
    shared.record_pulse();
    let (pulse, _) = shared.drain_pulse();
    assert!(pulse);
    // And a drain with nothing pending reports nothing.
    let (pulse, _) = shared.drain_pulse();
    assert!(!pulse);
}

#[test]
fn ring_buffer_evicts_oldest() {
    let mut buffer: RingBuffer<3> = RingBuffer::new();
    assert_eq!(buffer.put(1), 0);
    assert_eq!(buffer.put(2), 0);
    assert_eq!(buffer.put(3), 0);
    assert_eq!(buffer.put(4), 1);
    assert_eq!(buffer.put(5), 2);
}

#[test]
fn ring_buffer_iterates_most_recent_first() {
    let mut buffer: RingBuffer<3> = RingBuffer::new();
    buffer.put(1);
    buffer.put(2);
    buffer.put(3);
    buffer.put(4);
    let mut it = buffer.iter();
    assert_eq!(it.next(), 4);
    assert_eq!(it.next(), 3);
    assert_eq!(it.next(), 2);
    // The walk is cyclic: it wraps back to the newest sample.
    assert_eq!(it.next(), 4);
}

#[test]
fn ring_buffer_recent_sum() {
    let mut buffer: RingBuffer<5> = RingBuffer::new();
    buffer.put(10);
    buffer.put(20);
    buffer.put(30);
    assert_eq!(buffer.recent_sum(2), 50);
    assert_eq!(buffer.recent_sum(5), 60);
}

#[test]
fn slow_sum_tracks_the_window() {
    let mut smoother = Smoother::new();
    assert_eq!(smoother.slow_sum(), 0);
    for _ in 0..60 {
        smoother.put(2);
    }
    assert_eq!(smoother.slow_sum(), 120);
    // The next insertions evict samples of the full window.
    smoother.put(7);
    assert_eq!(smoother.slow_sum(), 125);
    smoother.put(0);
    assert_eq!(smoother.slow_sum(), 123);
}

#[test]
fn short_sum_takes_five_samples() {
    let mut smoother = Smoother::new();
    for v in [1u8, 2, 3, 4, 5, 6] {
        smoother.put(v);
    }
    assert_eq!(smoother.short_sum(), 2 + 3 + 4 + 5 + 6);
}

#[test]
fn estimate_is_deterministic() {
    let a = estimate(200, 900, 100);
    let b = estimate(200, 900, 100);
    assert_eq!(a, b);
}

#[test]
fn mode_boundary_at_threshold() {
    assert_eq!(estimate(100, 1000, 500), Rate::Slow(1000));
    assert_eq!(estimate(100, 1001, 500), Rate::Fast(6000));
}

#[test]
fn overflow_escalates_to_instant() {
    // At the sample maximum the normal path still applies.
    assert_eq!(estimate(255, 900, 100), Rate::Slow(900));
    // One above it forces the instant mode whatever the sums say.
    assert_eq!(estimate(256, 900, 100), Rate::Instant(256 * 60));
    assert_eq!(estimate(256, 2000, 100), Rate::Instant(256 * 60));
    assert_eq!(estimate(u16::MAX, 0, 0), Rate::Instant(65_535 * 60));
}

#[test]
fn dose_rate_truncates() {
    let mut sink = ByteSink::new();
    dose_rate(36).fmt(&mut sink);
    assert_eq!(sink.bytes(), "0.20".as_bytes());
    assert_eq!(rendered(dose_rate(18_000)), "102.60");
    assert_eq!(rendered(dose_rate(0)), "0.00");
}

#[test]
fn decimal_rendering() {
    assert_eq!(rendered(0u32), "0");
    assert_eq!(rendered(7u8), "7");
    assert_eq!(rendered(65_535u16), "65535");
    assert_eq!(rendered(12_345u32), "12345");
    assert_eq!(rendered(u32::MAX), "4294967295");
    assert_eq!(rendered(u64::MAX), "18446744073709551615");
}

#[test]
fn fixed2_rendering() {
    assert_eq!(rendered(Fixed2::from_bits(2052)), "20.52");
    assert_eq!(rendered(Fixed2::from_bits(5)), "0.05");
    assert_eq!(rendered(Fixed2::from_bits(1234)), "12.34");
    assert_eq!(rendered(Fixed2::from_bits(100)), "1.00");
    assert_eq!(rendered(Fixed2::from_bits(99)), "0.99");
}

#[test]
fn pstr_renders_and_iterates() {
    let p = PStr::new("uSv/hr".as_bytes().to_vec());
    assert_eq!(rendered(p), "uSv/hr");

    let mut it = PStr::new(vec![65, 66]).into_iter();
    assert_eq!(it.next(), Some(65));
    assert_eq!(it.next(), Some(66));
    assert_eq!(it.next(), None);
}

#[test]
fn twelve_ticks_of_three_pulses() {
    let mut machine = Machine::new();
    let mut smoother = Smoother::new();
    let mut sink = ByteSink::new();
    let mut last_line = String::new();

    for _ in 0..12 {
        for _ in 0..3 {
            machine.deliver(Event::Pulse);
        }
        machine.deliver(Event::Tick);
        send_report(&mut sink, &mut smoother, &mut machine.shared);
        last_line = String::from_utf8(sink.bytes().clone()).unwrap();
        sink = ByteSink::new();
    }

    assert_eq!(smoother.slow_sum(), 36);
    assert_eq!(last_line, "CPS, 3, CPM, 36, uSv/hr, 0.20, SLOW\r\n");
}

#[test]
fn report_escalates_on_sample_overflow() {
    let mut machine = Machine::new();
    let mut smoother = Smoother::new();
    let mut sink = ByteSink::new();

    for _ in 0..300 {
        machine.deliver(Event::Pulse);
    }
    machine.deliver(Event::Tick);
    send_report(&mut sink, &mut smoother, &mut machine.shared);

    let line = String::from_utf8(sink.bytes().clone()).unwrap();
    assert_eq!(line, "CPS, 300, CPM, 18000, uSv/hr, 102.60, INST\r\n");
    // The clamped sample is what entered the window.
    assert_eq!(smoother.slow_sum(), 255);
}

#[test]
fn report_switches_to_fast_over_threshold() {
    let mut machine = Machine::new();
    let mut smoother = Smoother::new();
    let mut line = String::new();

    for _ in 0..5 {
        for _ in 0..250 {
            machine.deliver(Event::Pulse);
        }
        machine.deliver(Event::Tick);
        let mut sink = ByteSink::new();
        send_report(&mut sink, &mut smoother, &mut machine.shared);
        line = String::from_utf8(sink.bytes().clone()).unwrap();
    }

    // slow sum 1250 exceeds the threshold: the short window, times 12.
    assert_eq!(line, "CPS, 250, CPM, 15000, uSv/hr, 85.50, FAST\r\n");
}

#[test]
fn report_without_tick_writes_nothing() {
    let mut shared = SharedData::new();
    let mut smoother = Smoother::new();
    let mut sink = ByteSink::new();
    shared.record_pulse();
    send_report(&mut sink, &mut smoother, &mut shared);
    assert!(sink.bytes().is_empty());
}

#[test]
fn pulse_feedback_drives_outputs() {
    let mut shared = SharedData::new();
    let mut led = Led::new();
    let mut beeper = Beeper::new();

    shared.record_pulse();
    assert!(check_event(&mut led, &mut beeper, &mut shared));
    assert!(led.is_on());
    assert!(beeper.is_on());
    finish_feedback(&mut led, &mut beeper);
    assert!(!led.is_on());
    assert!(!beeper.is_on());

    // Without a pending pulse nothing is driven.
    assert!(!check_event(&mut led, &mut beeper, &mut shared));
    assert!(!led.is_on());
    assert!(!beeper.is_on());
}

#[test]
fn mute_silences_the_beeper() {
    let mut machine = Machine::new();
    let mut led = Led::new();
    let mut beeper = Beeper::new();

    // A bounce that released again does not toggle the mute flag.
    machine.deliver(Event::Button(false));
    // A real press does.
    machine.deliver(Event::Button(true));

    machine.deliver(Event::Pulse);
    assert!(check_event(&mut led, &mut beeper, &mut machine.shared));
    assert!(led.is_on());
    assert!(!beeper.is_on());
    finish_feedback(&mut led, &mut beeper);

    // Toggling back unmutes.
    machine.deliver(Event::Button(true));
    machine.deliver(Event::Pulse);
    assert!(check_event(&mut led, &mut beeper, &mut machine.shared));
    assert!(beeper.is_on());
    finish_feedback(&mut led, &mut beeper);
}

#[test]
fn wait_for_event_sleeps_only_when_idle() {
    let mut machine = Machine::new();

    machine.wait_for_event();
    assert!(machine.is_asleep());

    // An event delivered after the suspend point wakes the core at once.
    machine.deliver(Event::Pulse);
    assert!(!machine.is_asleep());

    // With a flag already pending the wait step does not suspend.
    machine.wait_for_event();
    assert!(!machine.is_asleep());
}

#[test]
fn timer_fires_once_a_second() {
    let timer = Timer::new();
    assert_eq!(timer.counter_max, 31_250);
    assert_eq!(u32::from(timer.counter_max) * 256, 8_000_000);
}

#[test]
fn event_flags_set_and_take() {
    let mut flags = geiger::events::EventFlags::new();
    assert!(!flags.has_any_event());

    flags.set_gm_event();
    assert!(flags.has_any_event());
    assert!(!flags.take_tick_event());
    assert!(flags.take_gm_event());
    // The take cleared the bit in the same step.
    assert!(!flags.take_gm_event());
    assert!(!flags.has_any_event());

    flags.set_tick_event();
    flags.set_gm_event();
    assert!(flags.take_tick_event());
    assert!(flags.take_gm_event());
}
