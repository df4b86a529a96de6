use tango::time::{Instant, MAX_NANOS};

#[test]
fn readings_up_to_the_limit_are_held() {
    assert!(Instant::from_nanos(0).is_some());
    assert!(Instant::from_nanos(MAX_NANOS).is_some());
    assert!(Instant::from_nanos(MAX_NANOS + 1).is_none());
    assert_eq!(Instant::from_millis(3).unwrap().nanos(), 3_000_000);
    assert!(Instant::from_millis(u64::MAX).is_none());
    assert_eq!(Instant::zero().nanos(), 0);
}

#[test]
fn a_timeout_moves_a_reading_on() {
    let t = Instant::from_millis(1000).unwrap();
    assert_eq!(t.plus_millis(3000).nanos(), 4_000_000_000);
    let late = Instant::from_nanos(MAX_NANOS - 5).unwrap();
    assert_eq!(late.plus_millis(1).nanos(), MAX_NANOS);
}

#[test]
fn a_deadline_is_reached_at_its_own_reading() {
    let deadline = Instant::from_millis(3000).unwrap();
    assert!(!Instant::from_millis(2999).unwrap().reached(&deadline));
    assert!(Instant::from_millis(3000).unwrap().reached(&deadline));
    assert!(Instant::from_millis(3001).unwrap().reached(&deadline));
}
