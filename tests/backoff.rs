use pet_bridge::backoff::{BackoffPolicy, ErrorRecord};
use pet_bridge::bluetooth::{BluetoothLEError, BluetoothLEManager};

#[test]
fn backoff_doubles_from_the_base_and_is_clamped() {
    let p = BackoffPolicy::bluetooth();
    assert_eq!(p.backoff_for(0), 100);
    assert_eq!(p.backoff_for(1), 200);
    assert_eq!(p.backoff_for(3), 800);
    assert_eq!(p.backoff_for(8), 25_600);
    assert_eq!(p.backoff_for(9), 30_000);
    assert_eq!(p.backoff_for(10), 30_000);
    assert_eq!(p.backoff_for(u32::MAX), 30_000);
}

#[test]
fn backoff_exponent_stops_at_the_cap() {
    let p = BackoffPolicy { base_delay_ms: 1, max_retries: 3, max_backoff_ms: u64::MAX, cap_exponent: 10 };
    assert_eq!(p.backoff_for(10), 1024);
    assert_eq!(p.backoff_for(11), 1024);
    assert_eq!(p.backoff_for(40), 1024);
}

#[test]
fn backoff_never_decreases() {
    let p = BackoffPolicy::bluetooth();
    let mut last = 0;
    for k in 0..20u32 {
        let d = p.backoff_for(k);
        assert!(d >= last);
        last = d;
    }
}

#[test]
fn success_resets_the_failure_count() {
    let mut r: ErrorRecord<u8> = ErrorRecord::new(BackoffPolicy::bluetooth());
    r.record_error(1);
    r.record_error(2);
    assert_eq!(r.error_count, 2);
    assert_eq!(r.backoff_ms, 400);
    assert_eq!(r.last_error, Some(2));
    r.record_success();
    assert_eq!(r.error_count, 0);
    assert_eq!(r.backoff_ms, 100);
    assert!(r.should_retry());
}

#[test]
fn nine_bluetooth_failures_hit_the_cap_and_stop_retries() {
    let mut bt = BluetoothLEManager::new();
    assert!(bt.should_retry());
    for i in 0..9u32 {
        bt.handle_error(BluetoothLEError::ConnectionFailed { reason: format!("attempt {}", i) });
        if i + 1 >= 3 {
            assert!(!bt.should_retry());
        } else {
            assert!(bt.should_retry());
        }
        if i + 1 == 3 {
            assert_eq!(bt.errors.backoff_ms, 800);
            assert!(bt.errors.backoff_ms < 30_000);
        }
    }
    assert_eq!(bt.errors.error_count, 9);
    assert_eq!(bt.errors.backoff_ms, std::cmp::min(100 * 2u64.pow(9), 30_000));
    assert_eq!(bt.errors.backoff_ms, 30_000);
    assert!(!bt.should_retry());
}

#[test]
fn failure_count_stays_at_the_largest_value() {
    let mut r: ErrorRecord<u8> = ErrorRecord::new(BackoffPolicy::bluetooth());
    r.error_count = u32::MAX - 1;
    r.backoff_ms = BackoffPolicy::bluetooth().backoff_for(u32::MAX - 1);
    r.record_error(1);
    assert_eq!(r.error_count, u32::MAX);
    r.record_error(2);
    assert_eq!(r.error_count, u32::MAX);
    assert_eq!(r.backoff_ms, 30_000);
    assert!(!r.should_retry());
}
