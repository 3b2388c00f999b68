use countdown::event_loop::{
    dispatch_key, next_tick_origin, poll_budget, LoopStatus, QUIT_KEY, TOGGLE_KEY,
};
use countdown::Timer;

#[test]
fn quit_key_terminates_and_leaves_timer_alone() {
    let mut t = Timer::new(5000, 0);
    let status = dispatch_key(&mut t, QUIT_KEY, 1000);
    assert!(matches!(status, LoopStatus::Terminated));
    assert!(!t.is_paused());
    assert_eq!(t.remaining_time(1000), 4000);

    let mut p = Timer::new(5000, 0);
    p.pause(2000);
    let status = dispatch_key(&mut p, QUIT_KEY, 9000);
    assert!(matches!(status, LoopStatus::Terminated));
    assert!(p.is_paused());
    assert_eq!(p.remaining_time(9000), 3000);
}

#[test]
fn toggle_key_pauses_then_resumes() {
    let mut t = Timer::new(5000, 0);
    let status = dispatch_key(&mut t, TOGGLE_KEY, 1000);
    assert!(matches!(status, LoopStatus::Running));
    assert!(t.is_paused());
    assert_eq!(t.remaining_time(8000), 4000);
    let status = dispatch_key(&mut t, TOGGLE_KEY, 2000);
    assert!(matches!(status, LoopStatus::Running));
    assert!(!t.is_paused());
    assert_eq!(t.remaining_time(2000), 4000);
}

#[test]
fn unrecognized_key_is_ignored() {
    let mut t = Timer::new(5000, 0);
    let status = dispatch_key(&mut t, 'x', 1000);
    assert!(matches!(status, LoopStatus::Running));
    assert!(!t.is_paused());
    assert_eq!(t.remaining_time(0), 5000);
}

#[test]
fn poll_budget_is_tick_rate_minus_elapsed_clamped() {
    assert_eq!(poll_budget(100, 0), 100);
    assert_eq!(poll_budget(100, 30), 70);
    assert_eq!(poll_budget(100, 100), 0);
    assert_eq!(poll_budget(100, 250), 0);
}

#[test]
fn tick_origin_moves_only_after_a_full_tick() {
    assert_eq!(next_tick_origin(0, 50, 100), 0);
    assert_eq!(next_tick_origin(0, 100, 100), 100);
    assert_eq!(next_tick_origin(200, 350, 100), 350);
}

#[test]
fn no_input_renders_once_per_tick_interval() {
    let tick_rate: u64 = 100;
    let mut now: u64 = 0;
    let mut last_tick: u64 = 0;
    let mut renders: u64 = 0;
    for _ in 0..10 {
        renders += 1;
        let budget = poll_budget(tick_rate, now - last_tick);
        assert!(budget <= tick_rate);
        // no input ever arrives: the wait runs out its whole budget
        now += budget;
        last_tick = next_tick_origin(last_tick, now, tick_rate);
    }
    assert_eq!(renders, 10);
    assert_eq!(now, 1000);
}
