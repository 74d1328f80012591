use pitsa::local_system_time::LocalSystemTime;
use pitsa::ntp_sample::precision_micros;
use pitsa::ntp_sample::NtpSample;
use pitsa::time_keeper::TimeKeeper;

fn sample(offset_micros: i64, roundtrip_micros: u64, precision: i8) -> NtpSample {
    NtpSample {
        stratum: 2,
        offset_micros,
        roundtrip_micros,
        precision,
        seconds: 1_700_000_000,
        seconds_fraction: 0,
    }
}

#[test]
fn precision_is_rounded_power_of_two_seconds() {
    assert_eq!(precision_micros(0), 1_000_000);
    assert_eq!(precision_micros(1), 2_000_000);
    assert_eq!(precision_micros(-1), 500_000);
    assert_eq!(precision_micros(-6), 15_625);
    assert_eq!(precision_micros(-10), 977);
    assert_eq!(precision_micros(-20), 1);
    assert_eq!(precision_micros(-21), 0);
    assert_eq!(precision_micros(-128), 0);
    assert_eq!(precision_micros(44), 17_592_186_044_416_000_000);
    assert_eq!(precision_micros(45), u64::MAX);
    assert_eq!(precision_micros(127), u64::MAX);
}

#[test]
fn precision_matches_float_rounding() {
    for p in -40i8..=40 {
        let expected = (2f64.powi(i32::from(p)) * 1_000_000f64).round() as u64;
        assert_eq!(precision_micros(p), expected, "exponent {p}");
    }
}

#[test]
fn sample_epoch_micros_adds_fraction() {
    let mut s = sample(0, 0, -20);
    s.seconds = 1;
    s.seconds_fraction = u32::MAX;
    assert_eq!(s.epoch_micros(), 2_000_000);
    s.seconds_fraction = 1 << 31;
    assert_eq!(s.epoch_micros(), 1_500_000);
    s.seconds_fraction = 0;
    assert_eq!(s.epoch_micros(), 1_000_000);
}

#[test]
fn sample_accuracy_is_precision_plus_roundtrip() {
    assert_eq!(sample(0, 1_000, -10).accuracy_micros(), 1_977);
    assert_eq!(sample(0, u64::MAX, 0).accuracy_micros(), u64::MAX);
}

#[test]
fn fresh_clock_reports_declared_accuracy() {
    let c = LocalSystemTime::new(30_000_000);
    assert_eq!(
        c.get_epoch_time_with_accuracy_micros(1_000_000),
        Some((1_000_000, 30_000_000))
    );
}

#[test]
fn first_sample_only_sets_offset() {
    let mut c = LocalSystemTime::new(30_000_000);
    // offset 1000 widened by 977 precision and 23 round trip
    c.update_delta_from_ntp_time(&sample(1_000, 23, -10));
    assert_eq!(
        c.get_epoch_time_with_accuracy_micros(5_000_000),
        Some((5_002_000, 30_000_000))
    );
}

#[test]
fn second_sample_seeds_worst_accuracy() {
    let mut c = LocalSystemTime::new(30_000_000);
    c.update_delta_from_ntp_time(&sample(1_000, 23, -10)); // 2000
    c.update_delta_from_ntp_time(&sample(-3_000, 23, -10)); // -4000
    assert_eq!(
        c.get_epoch_time_with_accuracy_micros(5_000_000),
        Some((4_996_000, 4_000))
    );
    // drift between the two was 6000: a missed sample adds it
    c.update_delta_without_ntp_time();
    assert_eq!(
        c.get_epoch_time_with_accuracy_micros(5_000_000),
        Some((4_996_000, 10_000))
    );
}

#[test]
fn worst_accuracy_grows_only_on_larger_offset() {
    let mut c = LocalSystemTime::new(30_000_000);
    c.update_delta_from_ntp_time(&sample(1_000, 23, -10)); // 2000
    c.update_delta_from_ntp_time(&sample(3_000, 23, -10)); // 4000, worst 4000
    c.update_delta_from_ntp_time(&sample(1_000, 23, -10)); // 2000, worst stays
    assert_eq!(c.get_epoch_time_with_accuracy_micros(0), Some((2_000, 4_000)));
    c.update_delta_from_ntp_time(&sample(9_000, 23, -10)); // 10000 > 2000 and > 4000
    assert_eq!(c.get_epoch_time_with_accuracy_micros(0), Some((10_000, 10_000)));
}

#[test]
fn missed_samples_reset_at_declared_accuracy() {
    let mut c = LocalSystemTime::new(10_000);
    c.update_delta_from_ntp_time(&sample(1_000, 23, -10)); // 2000
    c.update_delta_from_ntp_time(&sample(3_000, 23, -10)); // 4000, drift 2000
    c.update_delta_without_ntp_time(); // 6000
    assert_eq!(c.get_epoch_time_with_accuracy_micros(100), Some((4_100, 6_000)));
    c.update_delta_without_ntp_time(); // 8000
    assert_eq!(c.get_epoch_time_with_accuracy_micros(100), Some((4_100, 8_000)));
    c.update_delta_without_ntp_time(); // 10000 reaches declared: reset
    assert_eq!(c.get_epoch_time_with_accuracy_micros(100), Some((100, 10_000)));
    c.update_delta_without_ntp_time(); // no drift known: nothing changes
    assert_eq!(c.get_epoch_time_with_accuracy_micros(100), Some((100, 10_000)));
}

#[test]
fn worst_accuracy_never_decreases_before_reset() {
    let mut c = LocalSystemTime::new(1_000_000);
    let mut last = 0u64;
    let offsets = [500i64, -700, 300, 1_500, -200, 4_000, 100];
    for o in offsets {
        c.update_delta_from_ntp_time(&sample(o, 0, -30));
        let (_, acc) = c.get_epoch_time_with_accuracy_micros(10_000).unwrap();
        if acc != 1_000_000 {
            assert!(acc >= last);
            last = acc;
        }
    }
    assert_eq!(last, 4_000);
}

#[test]
fn clock_refuses_time_before_epoch() {
    let mut c = LocalSystemTime::new(30_000_000);
    c.update_delta_from_ntp_time(&sample(-5_000, 0, -30));
    assert_eq!(c.get_epoch_time_with_accuracy_micros(4_999), None);
    assert_eq!(c.get_epoch_time_with_accuracy_micros(5_000), Some((0, 30_000_000)));
}

#[test]
fn keeper_refuses_time_beyond_tolerance() {
    let mut tk = TimeKeeper::new(None, 30_000_000, 500_000, false);
    assert!(!tk.is_within_tolerance());
    assert_eq!(tk.get_epoch_time_with_accuracy_micros(None, 1_000), None);
    assert!(!tk.is_within_tolerance());
}

#[test]
fn keeper_hands_out_time_within_tolerance() {
    let mut tk = TimeKeeper::new(None, 30_000_000, 30_000_000, false);
    assert_eq!(
        tk.get_epoch_time_with_accuracy_micros(None, 1_000),
        Some((1_000, 30_000_000))
    );
    assert!(tk.is_within_tolerance());
}

#[test]
fn keeper_without_host_never_asks_ntp_per_request() {
    let tk = TimeKeeper::new(None, 1, 1, true);
    assert!(!tk.queries_ntp_for_every_request());
    let tk = TimeKeeper::new(Some("pool.ntp.org".to_string()), 1, 1, true);
    assert!(tk.queries_ntp_for_every_request());
}

#[test]
fn keeper_uses_fresh_sample_per_request() {
    let mut tk = TimeKeeper::new(Some("ntp".to_string()), 30_000_000, 500_000, true);
    let mut s = sample(0, 1_000, -10);
    s.seconds = 2;
    s.seconds_fraction = 1 << 31;
    assert_eq!(
        tk.get_epoch_time_with_accuracy_micros(Some(s), 7),
        Some((2_500_000, 1_977))
    );
    assert!(tk.is_within_tolerance());
    // without a sample it falls back to the local clock, whose accuracy is too poor
    assert_eq!(tk.get_epoch_time_with_accuracy_micros(None, 7), None);
    assert!(!tk.is_within_tolerance());
}

#[test]
fn keeper_ignores_sample_when_not_per_request() {
    let mut tk = TimeKeeper::new(Some("ntp".to_string()), 400_000, 500_000, false);
    let s = sample(0, 1_000, -10);
    assert_eq!(
        tk.get_epoch_time_with_accuracy_micros(Some(s), 7),
        Some((7, 400_000))
    );
}

#[test]
fn keeper_periodic_sync_updates_local_clock() {
    let mut tk = TimeKeeper::new(Some("ntp".to_string()), 30_000_000, 500_000, false);
    tk.update_local_time_diff_from_ntp(Some(sample(1_000, 23, -10)), 10);
    assert!(!tk.is_within_tolerance());
    tk.update_local_time_diff_from_ntp(Some(sample(3_000, 23, -10)), 10);
    assert!(tk.is_within_tolerance());
    assert_eq!(
        tk.get_epoch_time_with_accuracy_micros(None, 10),
        Some((4_010, 4_000))
    );
    tk.update_local_time_diff_from_ntp(None, 10);
    assert!(tk.is_within_tolerance());
    assert_eq!(
        tk.get_epoch_time_with_accuracy_micros(None, 10),
        Some((4_010, 6_000))
    );
}
