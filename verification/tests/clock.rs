use boldtrace::clock::{elapsed_nanos, epoch_millis, nanos_since, now_millis};

#[test]
fn epoch_readings_saturate_and_default_to_zero() {
    assert_eq!(epoch_millis(None), 0);
    assert_eq!(epoch_millis(Some(1_700_000_000_123)), 1_700_000_000_123);
    assert_eq!(epoch_millis(Some(i64::MAX as u128)), i64::MAX);
    assert_eq!(epoch_millis(Some(u128::MAX)), i64::MAX);
}

#[test]
fn elapsed_readings_saturate() {
    assert_eq!(elapsed_nanos(0), 0);
    assert_eq!(elapsed_nanos(42), 42);
    assert_eq!(elapsed_nanos(u64::MAX as u128), u64::MAX);
    assert_eq!(elapsed_nanos(u64::MAX as u128 + 1), u64::MAX);
}

#[test]
fn clock_readings_are_plausible() {
    assert!(now_millis() > 1_600_000_000_000);
    let start = std::time::Instant::now();
    assert!(nanos_since(&start) < 60_000_000_000);
}
