use std::time::Duration;

use cadical::terminator::{DummyTerminator, Terminator, TimeoutTerminator};

#[test]
fn dummy_never_stops() {
    let mut t = DummyTerminator();
    assert!(!t.terminate());
    assert!(!t.terminate());
}

#[test]
fn timeout_limit_compares_elapsed() {
    let t = TimeoutTerminator::new(Duration::from_millis(10));
    assert!(!t.timed_out(0));
    assert!(!t.timed_out(10_000_000));
    assert!(t.timed_out(10_000_001));
}

#[test]
fn long_timeout_does_not_stop_at_once() {
    let mut t = TimeoutTerminator::new(Duration::from_secs(3600));
    assert!(!t.terminate());
}

#[test]
fn zero_timeout_stops_once_time_passes() {
    let mut t = TimeoutTerminator::new(Duration::from_nanos(0));
    let mut stopped = false;
    for _ in 0..1_000_000 {
        if t.terminate() {
            stopped = true;
            break;
        }
    }
    assert!(stopped);
}

#[test]
fn timeout_keeps_the_given_limit() {
    let t = cadical::TimeoutTerminator::new(Duration::new(2, 5));
    assert!(!t.timed_out(2_000_000_005));
    assert!(t.timed_out(2_000_000_006));
}
