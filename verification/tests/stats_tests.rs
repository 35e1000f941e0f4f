use loadgen::stats::{ResponseTime, MIN_SENTINEL};

#[test]
fn new_aggregator_reports_zeroes() {
    let rt = ResponseTime::new();
    assert_eq!(rt.get_count(), 0);
    assert_eq!(rt.get_average(), 0);
    assert_eq!(rt.get_max(), 0);
    assert_eq!(rt.get_min(), MIN_SENTINEL);
    let snap = rt.snapshot();
    assert_eq!(snap.count, 0);
    assert_eq!(snap.min, 0);
    assert_eq!(snap.max, 0);
    assert_eq!(snap.average, 0);
}

#[test]
fn count_equals_number_of_adds() {
    let mut rt = ResponseTime::new();
    for i in 0..57u32 {
        rt.add(i % 11);
    }
    assert_eq!(rt.get_count(), 57);
}

#[test]
fn min_and_max_are_true_extremes() {
    let mut rt = ResponseTime::new();
    for v in [5u32, 7, 3, 3, 120, 44] {
        rt.add(v);
    }
    assert_eq!(rt.get_min(), 3);
    assert_eq!(rt.get_max(), 120);
    assert_eq!(rt.get_count(), 6);
}

#[test]
fn min_is_true_minimum_beyond_sentinel() {
    let mut rt = ResponseTime::new();
    rt.add(2_000_000_000);
    rt.add(1_000_000_000);
    assert_eq!(rt.get_min(), 1_000_000_000);
    assert_eq!(rt.get_max(), 2_000_000_000);
}

#[test]
fn average_of_two_matches_direct_division() {
    let mut rt = ResponseTime::new();
    rt.add(5);
    rt.add(7);
    assert_eq!(rt.get_average(), (5 + 7) / 2);
}

#[test]
fn average_of_one_is_the_sample() {
    let mut rt = ResponseTime::new();
    rt.add(41);
    assert_eq!(rt.get_average(), 41);
}

#[test]
fn average_of_equal_samples_is_that_value() {
    let mut rt = ResponseTime::new();
    for _ in 0..9 {
        rt.add(4);
    }
    assert_eq!(rt.get_average(), 4);
}

#[test]
fn incremental_average_truncates_at_each_step() {
    // The stored average folds each sample in with truncating division, so it
    // can drift below the truncated true average and depends on arrival order.
    let mut rt = ResponseTime::new();
    rt.add(9);
    rt.add(0);
    rt.add(0);
    assert_eq!(rt.get_average(), 2); // direct computation would give 9 / 3 == 3

    let mut rt2 = ResponseTime::new();
    rt2.add(0);
    rt2.add(0);
    rt2.add(9);
    assert_eq!(rt2.get_average(), 3);
}

#[test]
fn average_stays_between_min_and_max() {
    let mut rt = ResponseTime::new();
    for v in [13u32, 200, 1, 55, 55, 999, 0, 47] {
        rt.add(v);
    }
    let snap = rt.snapshot();
    assert!(snap.min <= snap.average);
    assert!(snap.average <= snap.max);
}

#[test]
fn snapshot_is_idempotent() {
    let mut rt = ResponseTime::new();
    rt.add(10);
    rt.add(20);
    let first = rt.snapshot();
    let second = rt.snapshot();
    assert_eq!(first, second);

    let empty = ResponseTime::new();
    assert_eq!(empty.snapshot(), empty.snapshot());
}

#[test]
fn snapshot_reflects_the_fields() {
    let mut rt = ResponseTime::new();
    rt.add(8);
    rt.add(2);
    let snap = rt.snapshot();
    assert_eq!(snap.count, rt.get_count());
    assert_eq!(snap.min, rt.get_min());
    assert_eq!(snap.max, rt.get_max());
    assert_eq!(snap.average, rt.get_average());
}
