use ab_core::sampler::{Sampler, NANOS_PER_SECOND};

const SECOND: u64 = 1_000_000_000;

#[test]
fn a_new_sampler_is_empty() {
    let s = Sampler::new(42);
    assert_eq!((s.packets(), s.bytes(), s.window_start()), (0, 0, 42));
    assert_eq!(NANOS_PER_SECOND, 1_000_000_000);
}

#[test]
fn packets_within_a_second_are_counted_and_reported_together() {
    let start = 5 * SECOND;
    let mut s = Sampler::new(start);
    let sizes = [172u64, 60, 1200, 0, 333];
    for (i, size) in sizes.iter().enumerate() {
        assert!(s.record(*size, start + (i as u64) * 200_000_000 - (i as u64)).is_none());
    }
    assert_eq!((s.packets(), s.bytes(), s.window_start()), (5, 1765, start));
    assert!(s.poll(start + SECOND - 1).is_none());
    let report = s.poll(start + SECOND).unwrap();
    assert_eq!(report.packets(), 5);
    assert_eq!(report.bytes(), 172 + 60 + 1200 + 333);
    assert_eq!(report.elapsed_nanos(), SECOND);
}

#[test]
fn a_report_resets_the_window_to_the_time_of_the_report() {
    let mut s = Sampler::new(0);
    s.observe(100);
    s.observe(200);
    let now = 3 * SECOND + 17;
    let report = s.poll(now).unwrap();
    assert_eq!((report.packets(), report.bytes(), report.elapsed_nanos()), (2, 300, now));
    assert_eq!((s.packets(), s.bytes(), s.window_start()), (0, 0, now));
}

#[test]
fn a_packet_after_a_report_is_alone_in_the_next_report() {
    let mut s = Sampler::new(0);
    for _ in 0..400 {
        s.observe(172);
    }
    assert!(s.poll(SECOND).is_some());
    assert!(s.record(64, SECOND).is_none());
    let next = s.poll(2 * SECOND).unwrap();
    assert_eq!((next.packets(), next.bytes()), (1, 64));
    assert_eq!(next.elapsed_nanos(), SECOND);
}

#[test]
fn a_report_that_falls_due_with_a_packet_includes_it() {
    let mut s = Sampler::new(10);
    assert!(s.record(100, 10 + SECOND - 1).is_none());
    let report = s.record(50, 10 + SECOND).unwrap();
    assert_eq!((report.packets(), report.bytes(), report.elapsed_nanos()), (2, 150, SECOND));
    assert_eq!((s.packets(), s.bytes(), s.window_start()), (0, 0, 10 + SECOND));
}

#[test]
fn a_window_without_packets_is_reported_empty() {
    let mut s = Sampler::new(0);
    let report = s.poll(SECOND).unwrap();
    assert_eq!((report.packets(), report.bytes()), (0, 0));
    assert_eq!(report.packets_per_second(), 0);
    assert_eq!(report.kbit_per_second(), 0);
}

#[test]
fn a_clock_that_reads_earlier_than_the_window_start_counts_as_no_time() {
    let mut s = Sampler::new(10 * SECOND);
    assert!(s.record(1, 0).is_none());
    assert!(s.poll(9 * SECOND).is_none());
    assert!(s.poll(10 * SECOND).is_none());
    assert_eq!((s.packets(), s.bytes(), s.window_start()), (1, 1, 10 * SECOND));
    assert!(s.poll(11 * SECOND).is_some());
}

#[test]
fn rates_are_counts_over_elapsed_seconds() {
    let mut s = Sampler::new(0);
    for _ in 0..400 {
        s.observe(80);
    }
    let report = s.poll(SECOND).unwrap();
    assert_eq!(report.packets_per_second(), 400);
    assert_eq!(report.bits_per_second(), 256_000);
    assert_eq!(report.kbit_per_second(), 256);

    let mut s = Sampler::new(0);
    for _ in 0..400 {
        s.observe(80);
    }
    let report = s.poll(2 * SECOND).unwrap();
    assert_eq!(report.packets_per_second(), 200);
    assert_eq!(report.bits_per_second(), 128_000);
    assert_eq!(report.kbit_per_second(), 128);
}

#[test]
fn rates_are_rounded_down() {
    let mut s = Sampler::new(0);
    for _ in 0..10 {
        s.observe(33);
    }
    let report = s.poll(3 * SECOND).unwrap();
    assert_eq!(report.packets_per_second(), 3);
    assert_eq!(report.bits_per_second(), 880);
    assert_eq!(report.kbit_per_second(), 0);

    let mut s = Sampler::new(0);
    s.observe(1_999);
    let report = s.poll(SECOND + SECOND / 2).unwrap();
    assert_eq!(report.packets_per_second(), 0);
    assert_eq!(report.bits_per_second(), 10_661);
    assert_eq!(report.kbit_per_second(), 10);
}

#[test]
fn rates_of_the_largest_counts_fit() {
    let mut s = Sampler::new(0);
    s.observe(u64::MAX);
    let report = s.poll(SECOND).unwrap();
    assert_eq!(report.bytes(), u64::MAX);
    assert_eq!(report.bits_per_second(), (u64::MAX as u128) * 8);
    assert_eq!(report.kbit_per_second(), ((u64::MAX as u128) * 8 / 1000) as u64);
    assert_eq!(report.packets_per_second(), 1);
}

#[test]
fn try_record_refuses_a_packet_that_the_counters_cannot_take() {
    let mut s = Sampler::new(0);
    assert!(s.has_room(u64::MAX));
    let (report, counted) = s.try_record(u64::MAX - 5, 1);
    assert!(counted);
    assert!(report.is_none());
    assert!(s.has_room(5));
    assert!(!s.has_room(6));
    let (report, counted) = s.try_record(6, 2 * SECOND);
    assert!(!counted);
    assert!(report.is_none());
    assert_eq!((s.packets(), s.bytes(), s.window_start()), (1, u64::MAX - 5, 0));
    let (report, counted) = s.try_record(5, 2 * SECOND);
    assert!(counted);
    let report = report.unwrap();
    assert_eq!((report.packets(), report.bytes(), report.elapsed_nanos()), (2, u64::MAX, 2 * SECOND));
    assert_eq!((s.packets(), s.bytes(), s.window_start()), (0, 0, 2 * SECOND));
}
