use shuteye::sleep;
use shuteye::Timespec;
use std::time::Instant;

/// Sleep for the requested nanosecond count and return the measured
/// wall-clock elapsed time plus any reported unslept remainder.
fn measure_sleep_total_ns(request_ns: i64) -> u128 {
    let duration = Timespec::from_nanoseconds(request_ns).unwrap();
    let start = Instant::now();
    let remain = sleep(duration);
    let elapsed = start.elapsed().as_nanos();
    let remain_ns: u128 = match remain {
        Some(r) => r.as_total_nanoseconds() as u128,
        None => 0,
    };
    elapsed + remain_ns
}

#[test]
fn sleep_1s() {
    assert!(measure_sleep_total_ns(1_000_000_000) >= 1_000_000_000);
}

#[test]
fn sleep_less_1s() {
    assert!(measure_sleep_total_ns(999_999_999) >= 999_999_999);
}

#[test]
fn uninterrupted_sleep_has_no_remainder() {
    let duration = Timespec::from_nanoseconds(1_000_000).unwrap();
    let remain = sleep(duration);
    assert!(remain.is_none());
}
