use duino_fleet::throttle::{reported_rate, search_space, sleep_duration, work_units};

#[test]
fn sleep_pads_up_to_the_target_time() {
    // 300 hashes at 300.00 H/s take one second.
    assert_eq!(sleep_duration(300, 0, 30_000), 1_000_000_000);
    assert_eq!(sleep_duration(300, 250_000_000, 30_000), 750_000_000);
    assert_eq!(sleep_duration(150, 0, 30_000), 500_000_000);
}

#[test]
fn slow_search_sleeps_zero() {
    assert_eq!(sleep_duration(300, 1_000_000_000, 30_000), 0);
    assert_eq!(sleep_duration(300, 2_000_000_000, 30_000), 0);
    assert_eq!(sleep_duration(0, 5, 30_000), 0);
}

#[test]
fn sleep_is_capped() {
    assert_eq!(sleep_duration(u64::MAX, 0, 1), u64::MAX);
}

#[test]
fn reported_rate_is_work_over_time() {
    assert_eq!(reported_rate(300, 1_000_000_000), 30_000);
    assert_eq!(reported_rate(1, 3_000_000_000), 33);
    assert_eq!(reported_rate(0, 1_000), 0);
    assert_eq!(reported_rate(5, 0), 500_000_000_000);
    assert_eq!(reported_rate(u64::MAX, 1), u64::MAX);
}

#[test]
fn work_is_nonce_or_whole_space() {
    assert_eq!(search_space(5), 501);
    assert_eq!(search_space(0), 1);
    assert_eq!(work_units(Some(42), 501), 42);
    assert_eq!(work_units(Some(0), 501), 0);
    assert_eq!(work_units(None, 501), 501);
}

#[test]
fn throttled_rate_meets_target_over_cycles() {
    let target: u64 = 29_734;
    let mut elapsed: u64 = 1_000_000;
    for work in [1u64, 57, 300, 499, 10_001] {
        let sleep = sleep_duration(work, elapsed, target);
        let rate = reported_rate(work, elapsed + sleep);
        assert_eq!(rate, target);
        elapsed += 3_000_000;
    }
}
