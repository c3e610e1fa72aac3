use concurrency_observer::clock::duration_from_millis;
use concurrency_observer::clock::duration_ms;
use concurrency_observer::clock::instant_from_millis;
use concurrency_observer::clock::now_ms;
use concurrency_observer::clock::EngineError;
use concurrency_observer::clock::MAX_DURATION_MS;
use concurrency_observer::clock::MAX_INSTANT_MS;
use concurrency_observer::clock::MAX_SQUARED_DEVIATION;
use std::time::Duration;
use std::time::SystemTime;

#[test]
fn limits_have_the_documented_values() {
    assert_eq!(MAX_INSTANT_MS, 1i128 << 62);
    assert_eq!(MAX_DURATION_MS, (1i128 << 31) - 1);
    assert_eq!(MAX_SQUARED_DEVIATION, MAX_DURATION_MS * MAX_DURATION_MS);
}

#[test]
fn instant_from_millis_keeps_what_a_schedule_holds() {
    assert_eq!(instant_from_millis(0), Ok(0));
    assert_eq!(instant_from_millis(1_700_000_000_000), Ok(1_700_000_000_000));
    assert_eq!(instant_from_millis(1u128 << 62), Ok(1i128 << 62));
}

#[test]
fn instant_from_millis_refuses_what_lies_beyond() {
    assert_eq!(instant_from_millis((1u128 << 62) + 1), Err(EngineError::TimingUnavailable));
    assert_eq!(instant_from_millis(u128::MAX), Err(EngineError::TimingUnavailable));
}

#[test]
fn duration_from_millis_keeps_what_a_schedule_holds() {
    assert_eq!(duration_from_millis(0), Ok(0));
    assert_eq!(duration_from_millis(50), Ok(50));
    assert_eq!(duration_from_millis(2_147_483_647), Ok(2_147_483_647));
}

#[test]
fn duration_from_millis_refuses_what_lies_beyond() {
    assert_eq!(duration_from_millis(2_147_483_648), Err(EngineError::TimingUnavailable));
    assert_eq!(duration_from_millis(u128::MAX), Err(EngineError::TimingUnavailable));
}

#[test]
fn now_ms_counts_from_the_epoch() {
    let watch = SystemTime::UNIX_EPOCH + Duration::from_millis(86_400_123);
    assert_eq!(now_ms(&watch), Ok(86_400_123));
    assert_eq!(now_ms(&SystemTime::UNIX_EPOCH), Ok(0));
}

#[test]
fn now_ms_of_the_present_is_long_after_the_epoch() {
    let instant = now_ms(&SystemTime::now()).unwrap();
    assert!(instant > 1_600_000_000_000);
    assert!(instant <= MAX_INSTANT_MS);
}

#[test]
fn now_ms_before_the_epoch_is_unavailable() {
    let watch = SystemTime::UNIX_EPOCH - Duration::from_secs(1);
    assert_eq!(now_ms(&watch), Err(EngineError::TimingUnavailable));
}

#[test]
fn duration_ms_since_a_past_reading() {
    let watch = SystemTime::now() - Duration::from_millis(1500);
    let elapsed = duration_ms(&watch).unwrap();
    assert!(elapsed >= 1500);
    assert!(elapsed < 60_000);
}

#[test]
fn duration_ms_since_a_future_reading_is_unavailable() {
    let watch = SystemTime::now() + Duration::from_secs(3600);
    assert_eq!(duration_ms(&watch), Err(EngineError::TimingUnavailable));
}

#[test]
fn duration_ms_beyond_the_longest_duration_is_unavailable() {
    let watch = SystemTime::now() - Duration::from_secs(30 * 24 * 3600);
    assert_eq!(duration_ms(&watch), Err(EngineError::TimingUnavailable));
}
