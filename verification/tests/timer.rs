use countdown::Timer;

#[test]
fn new_starts_running_with_full_duration() {
    let t = Timer::new(5000, 1000);
    assert!(!t.is_paused());
    assert_eq!(t.remaining_time(1000), 5000);
}

#[test]
fn negative_duration_starts_expired() {
    let t = Timer::new(-100, 0);
    assert!(!t.is_paused());
    assert_eq!(t.remaining_time(0), 0);
}

#[test]
fn pause_then_resume_keeps_remaining() {
    let mut t = Timer::new(5000, 0);
    t.pause(2000);
    assert_eq!(t.remaining_time(2000), 3000);
    t.resume(2000);
    assert!(!t.is_paused());
    assert_eq!(t.remaining_time(2000), 3000);
}

#[test]
fn double_pause_is_single_pause() {
    let mut once = Timer::new(5000, 0);
    let mut twice = Timer::new(5000, 0);
    once.pause(1000);
    twice.pause(1000);
    twice.pause(4000);
    assert!(once.is_paused());
    assert!(twice.is_paused());
    assert_eq!(once.remaining_time(9000), twice.remaining_time(9000));
    assert_eq!(twice.remaining_time(9000), 4000);
}

#[test]
fn double_resume_is_single_resume() {
    let mut once = Timer::new(5000, 0);
    let mut twice = Timer::new(5000, 0);
    once.pause(1000);
    twice.pause(1000);
    once.resume(2000);
    twice.resume(2000);
    twice.resume(4000);
    assert!(!once.is_paused());
    assert!(!twice.is_paused());
    assert_eq!(once.remaining_time(3000), twice.remaining_time(3000));
    assert_eq!(twice.remaining_time(3000), 3000);
}

#[test]
fn remaining_monotonic_while_running() {
    let t = Timer::new(5000, 0);
    let r1 = t.remaining_time(1000);
    let r2 = t.remaining_time(2500);
    let r3 = t.remaining_time(7000);
    assert!(r2 <= r1);
    assert!(r3 <= r2);
    assert_eq!(r1, 4000);
    assert_eq!(r2, 2500);
    assert_eq!(r3, 0);
}

#[test]
fn expired_clamps_to_zero() {
    let mut t = Timer::new(1000, 0);
    assert_eq!(t.remaining_time(2000), 0);
    assert_eq!(t.remaining_time(10_000), 0);
    t.pause(3000);
    assert!(t.is_paused());
    assert_eq!(t.remaining_time(123_456), 0);
}

#[test]
fn paused_value_frozen() {
    let mut t = Timer::new(2000, 0);
    t.pause(0);
    assert_eq!(t.remaining_time(5000), 2000);
    assert_eq!(t.remaining_time(1_000_000), 2000);
}

#[test]
fn paused_interval_excluded_from_countdown() {
    let mut t = Timer::new(3000, 0);
    t.pause(1000);
    assert_eq!(t.remaining_time(1000), 2000);
    t.resume(4000);
    assert_eq!(t.remaining_time(5000), 1000);
}

#[test]
fn toggle_alternates_pause_and_resume() {
    let mut t = Timer::new(5000, 0);
    t.toggle(1000);
    assert!(t.is_paused());
    assert_eq!(t.remaining_time(9000), 4000);
    t.toggle(2000);
    assert!(!t.is_paused());
    assert_eq!(t.remaining_time(2000), 4000);
}

#[test]
fn wall_clock_variants_follow_the_state_machine() {
    let mut t = Timer::new_now(5000);
    assert!(!t.is_paused());
    t.pause_now();
    assert!(t.is_paused());
    let r1 = t.remaining_time_now();
    let r2 = t.remaining_time_now();
    assert_eq!(r1, r2);
    assert!(r1 >= 0);
    t.resume_now();
    assert!(!t.is_paused());
    assert!(t.remaining_time_now() >= 0);
}
