use tango::limiter::PkLimiter;
use tango::time::Instant;

fn at_millis(ms: u64) -> Instant {
    Instant::from_millis(ms).unwrap()
}

#[test]
fn three_pass_and_the_fourth_is_turned_away() {
    let mut l = PkLimiter::new();
    assert!(l.check_at(at_millis(0)));
    assert!(l.check_at(at_millis(500)));
    assert!(l.check_at(at_millis(1000)));
    assert!(!l.check_at(at_millis(2000)));
    assert!(!l.check_at(at_millis(5999)));
}

#[test]
fn one_more_passes_six_seconds_after_the_first() {
    let mut l = PkLimiter::new();
    assert!(l.check_at(at_millis(0)));
    assert!(l.check_at(at_millis(0)));
    assert!(l.check_at(at_millis(0)));
    assert!(!l.check_at(at_millis(5999)));
    assert!(l.check_at(at_millis(6000)));
    assert!(!l.check_at(at_millis(6001)));
    assert!(l.check_at(at_millis(12000)));
}

#[test]
fn a_reading_that_steps_back_is_judged_at_the_latest_one() {
    let mut l = PkLimiter::new();
    assert!(l.check_at(at_millis(10_000)));
    assert!(l.check_at(at_millis(0)));
    assert!(l.check_at(at_millis(0)));
    assert!(!l.check_at(at_millis(0)));
    assert!(l.check_at(at_millis(16_000)));
}

#[test]
fn a_turned_away_request_does_not_count() {
    let mut l = PkLimiter::new();
    for _ in 0..3 {
        assert!(l.check_at(at_millis(1)));
    }
    for _ in 0..10 {
        assert!(!l.check_at(at_millis(2)));
    }
    assert!(l.check_at(at_millis(6001)));
}

#[test]
fn a_late_first_request_starts_the_count() {
    let mut l = PkLimiter::new();
    assert!(l.check_at(at_millis(3_600_000)));
    assert!(l.check_at(at_millis(3_600_000)));
    assert!(l.check_at(at_millis(3_600_000)));
    assert!(!l.check_at(at_millis(3_600_001)));
}
