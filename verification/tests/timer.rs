//! The timer state machine on its own.

use kooha::timer::{KhaTimer, TimerState};

#[test]
fn a_fresh_timer_is_stopped_at_zero() {
    let t = KhaTimer::new();
    assert_eq!(t.state(), TimerState::Stopped);
    assert_eq!(t.elapsed(), 0);
    assert_eq!(t.countdown(), 0);
}

#[test]
fn a_positive_delay_counts_down_to_running() {
    let mut t = KhaTimer::new();
    t.start(2);
    assert_eq!(t.state(), TimerState::Delayed);
    assert_eq!(t.countdown(), 2);
    assert_eq!(t.elapsed(), 0);

    t.tick();
    assert_eq!(t.state(), TimerState::Delayed);
    assert_eq!(t.countdown(), 1);

    t.tick();
    assert_eq!(t.state(), TimerState::Running);
    assert_eq!(t.countdown(), 0);
    assert_eq!(t.elapsed(), 0, "reaching the end of the countdown resets the elapsed time");
}

#[test]
fn a_zero_delay_starts_running_at_once() {
    let mut t = KhaTimer::new();
    t.start(0);
    assert_eq!(t.state(), TimerState::Running);
    assert_eq!(t.elapsed(), 0);

    t.tick();
    t.tick();
    t.tick();
    assert_eq!(t.elapsed(), 3);
}

#[test]
fn start_is_valid_only_from_stopped() {
    let mut t = KhaTimer::new();
    t.start(0);
    t.tick();
    t.start(5);
    assert_eq!(t.state(), TimerState::Running, "a second start is a no-op");
    assert_eq!(t.elapsed(), 1);
    assert_eq!(t.countdown(), 0);
}

#[test]
fn pause_freezes_and_resume_continues() {
    let mut t = KhaTimer::new();
    t.start(0);
    t.tick();
    t.tick();

    t.pause();
    assert_eq!(t.state(), TimerState::Paused);
    t.tick();
    assert_eq!(t.elapsed(), 2, "a tick while paused is ignored");

    t.resume();
    assert_eq!(t.state(), TimerState::Running);
    t.tick();
    assert_eq!(t.elapsed(), 3);
}

#[test]
fn pause_and_resume_are_noops_in_other_states() {
    let mut t = KhaTimer::new();
    t.pause();
    assert_eq!(t.state(), TimerState::Stopped);
    t.resume();
    assert_eq!(t.state(), TimerState::Stopped);

    t.start(3);
    t.pause();
    assert_eq!(t.state(), TimerState::Delayed, "pause is valid only while running");
    t.resume();
    assert_eq!(t.state(), TimerState::Delayed);
}

#[test]
fn stop_resets_from_every_state() {
    let mut t = KhaTimer::new();
    t.start(3);
    t.stop();
    assert_eq!((t.state(), t.elapsed(), t.countdown()), (TimerState::Stopped, 0, 0));

    t.start(0);
    t.tick();
    t.tick();
    t.stop();
    assert_eq!((t.state(), t.elapsed(), t.countdown()), (TimerState::Stopped, 0, 0));

    t.start(0);
    t.tick();
    t.pause();
    t.stop();
    assert_eq!((t.state(), t.elapsed(), t.countdown()), (TimerState::Stopped, 0, 0));

    t.tick();
    assert_eq!(t.elapsed(), 0, "a tick after a stop is ignored");
}
