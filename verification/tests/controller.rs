//! The controller's laws on concrete values, and the rejection of
//! every operation that is invalid for the current state.

use kooha::controller::{KhaRecorderController, RecorderControllerState};
use kooha::events::{Action, Notification, RecorderResponse, Region};

fn region() -> Region {
    Region { x: 0, y: 0, width: 100, height: 100 }
}

fn recording() -> KhaRecorderController {
    let mut c = KhaRecorderController::new();
    c.start(0);
    c.finish_area_selection(Some(region()));
    c
}

fn count_responses(notifications: &[Notification]) -> usize {
    notifications.iter().filter(|n| matches!(n, Notification::Response(_))).count()
}

#[test]
fn every_observed_state_matches_the_lifecycle() {
    let mut c = KhaRecorderController::new();
    let mut observed = vec![c.state()];
    c.start(1);
    observed.push(c.state());
    c.finish_area_selection(Some(region()));
    observed.push(c.state());
    c.tick();
    observed.push(c.state());
    c.pause();
    observed.push(c.state());
    c.resume();
    observed.push(c.state());
    c.stop();
    observed.push(c.state());
    c.finish_flush(RecorderResponse::Success("out.webm".to_string()));
    observed.push(c.state());

    assert_eq!(
        observed,
        vec![
            RecorderControllerState::Idle,
            RecorderControllerState::Idle,
            RecorderControllerState::Delayed,
            RecorderControllerState::Recording,
            RecorderControllerState::Paused,
            RecorderControllerState::Recording,
            RecorderControllerState::Flushing,
            RecorderControllerState::Idle,
        ]
    );
}

#[test]
fn time_is_zero_whenever_idle() {
    let mut c = KhaRecorderController::new();
    assert_eq!((c.state(), c.time()), (RecorderControllerState::Idle, 0));

    c.start(2);
    c.finish_area_selection(Some(region()));
    c.cancel_delay();
    assert_eq!((c.state(), c.time()), (RecorderControllerState::Idle, 0));

    c.start(0);
    c.finish_area_selection(Some(region()));
    c.tick();
    c.tick();
    assert_eq!(c.time(), 2);
    c.stop();
    c.finish_flush(RecorderResponse::Success("out.webm".to_string()));
    assert_eq!((c.state(), c.time()), (RecorderControllerState::Idle, 0));
}

#[test]
fn cancel_delay_twice_changes_nothing_further() {
    let mut c = KhaRecorderController::new();
    c.start(4);
    c.finish_area_selection(Some(region()));
    assert_eq!(c.state(), RecorderControllerState::Delayed);

    let first = c.cancel_delay();
    assert_eq!(c.state(), RecorderControllerState::Idle);
    assert_eq!(first.notifications.len(), 2);
    assert_eq!(count_responses(&first.notifications), 0);

    let second = c.cancel_delay();
    assert_eq!(c.state(), RecorderControllerState::Idle);
    assert_eq!(c.time(), 0);
    assert!(second.notifications.is_empty());
    assert_eq!(count_responses(&second.notifications), 0);
    assert_eq!(second.action, None);
}

#[test]
fn exactly_one_response_per_completed_stop() {
    let mut c = recording();
    let mut responses = 0;

    let eff = c.stop();
    responses += count_responses(&eff.notifications);

    let eff = c.finish_flush(RecorderResponse::Success("one.webm".to_string()));
    responses += count_responses(&eff.notifications);
    assert_eq!(c.state(), RecorderControllerState::Idle);

    let duplicate = c.finish_flush(RecorderResponse::Success("two.webm".to_string()));
    responses += count_responses(&duplicate.notifications);
    assert!(duplicate.notifications.is_empty(), "a duplicate completion is ignored");
    assert_eq!(c.state(), RecorderControllerState::Idle);

    assert_eq!(responses, 1, "never zero, never two");
}

#[test]
fn operations_invalid_for_the_state_are_rejected_as_noops() {
    let mut c = KhaRecorderController::new();

    assert!(c.pause().notifications.is_empty());
    assert!(c.resume().notifications.is_empty());
    assert!(c.stop().notifications.is_empty());
    assert!(c.cancel_delay().notifications.is_empty());
    assert!(c.tick().notifications.is_empty());
    assert!(c.finish_flush(RecorderResponse::Success("x".to_string())).notifications.is_empty());
    assert!(c.finish_area_selection(Some(region())).notifications.is_empty());
    assert_eq!(c.state(), RecorderControllerState::Idle);

    c.start(0);
    let again = c.start(0);
    assert_eq!(again.action, None, "start is rejected while the selector already runs");
    c.finish_area_selection(Some(region()));
    assert_eq!(c.state(), RecorderControllerState::Recording);

    assert!(c.resume().notifications.is_empty());
    assert!(c.cancel_delay().notifications.is_empty());
    assert_eq!(c.start(3).action, None, "start is valid only from idle");
    assert_eq!(c.state(), RecorderControllerState::Recording);

    c.stop();
    assert_eq!(c.state(), RecorderControllerState::Flushing);
    assert!(c.stop().notifications.is_empty(), "stop is rejected while flushing");
    assert!(c.pause().notifications.is_empty());
    assert!(c.tick().notifications.is_empty(), "a timer event while flushing is suppressed");
    assert_eq!(c.state(), RecorderControllerState::Flushing);
}

#[test]
fn is_paused_holds_exactly_in_the_paused_state() {
    let mut c = KhaRecorderController::new();
    assert!(!c.is_paused());
    c.start(0);
    c.finish_area_selection(Some(region()));
    assert!(!c.is_paused());
    c.pause();
    assert!(c.is_paused());
    c.resume();
    assert!(!c.is_paused());
    c.stop();
    assert!(!c.is_paused());
}

#[test]
fn quitting_is_safe_only_while_idle_or_delayed() {
    let mut c = KhaRecorderController::new();
    assert!(c.is_safe_to_quit());
    c.start(2);
    assert!(c.is_safe_to_quit());
    c.finish_area_selection(Some(region()));
    assert!(c.is_safe_to_quit(), "a pre-roll countdown loses nothing");
    c.tick();
    c.tick();
    assert!(!c.is_safe_to_quit(), "a recording would be lost");
    c.pause();
    assert!(!c.is_safe_to_quit());
    c.resume();
    c.stop();
    assert!(!c.is_safe_to_quit(), "the backend is still flushing");
    c.finish_flush(RecorderResponse::Success("out.webm".to_string()));
    assert!(c.is_safe_to_quit());
}

#[test]
fn default_state_is_idle() {
    assert_eq!(RecorderControllerState::default(), RecorderControllerState::Idle);
}

#[test]
fn start_records_the_configured_delay() {
    let mut c = KhaRecorderController::new();
    c.start(7);
    let eff = c.finish_area_selection(Some(region()));
    assert_eq!(eff.action, Some(Action::BeginCapture(region(), 7)));
    assert_eq!(c.delay_remaining(), 7);
}
