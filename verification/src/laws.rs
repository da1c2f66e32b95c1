//! Laws of the session transition system, proved once over the step
//! functions that every controller operation is specified by.

use vstd::prelude::*;
use crate::controller::{
    ControllerView, RecorderControllerState, controller_inv, emits_response, session_state_of,
    step_cancel_delay, step_finish_area_selection, step_finish_flush, step_pause, step_resume,
    step_start, step_stop, step_tick,
};
use crate::events::{Notification, RecorderResponse, Region};

verus! {

/// Every step of the transition system preserves the controller's
/// well-formedness: whatever sequence of operations and collaborator
/// events is applied to a well-formed controller, each intermediate
/// model is well-formed, so the session state always agrees with the
/// timer table or is the `Flushing` override.
pub proof fn lemma_steps_preserve_inv(
    v: ControllerView,
    record_delay: u32,
    selection: Option<Region>,
    response: RecorderResponse,
)
    requires
        controller_inv(v),
    ensures
        controller_inv(step_start(v, record_delay).0),
        controller_inv(step_finish_area_selection(v, selection).0),
        controller_inv(step_cancel_delay(v).0),
        controller_inv(step_stop(v).0),
        controller_inv(step_pause(v).0),
        controller_inv(step_resume(v).0),
        controller_inv(step_tick(v).0),
        controller_inv(step_finish_flush(v, response).0),
{
}

/// The edges of the session lifecycle: either the state is unchanged —
/// a rejected operation, a silent countdown tick, an ignored event —
/// or the transition is one of the lifecycle's arrows: a completed
/// selection starts a session, the countdown reaches zero, recording
/// pauses and resumes, a cancel or a stop ends the countdown, and the
/// backend's completion ends the flush.
pub open spec fn lifecycle_edge(
    pre: RecorderControllerState,
    post: RecorderControllerState,
) -> bool {
    ||| pre == post
    ||| (pre == RecorderControllerState::Idle && post == RecorderControllerState::Delayed)
    ||| (pre == RecorderControllerState::Idle && post == RecorderControllerState::Recording)
    ||| (pre == RecorderControllerState::Delayed && post == RecorderControllerState::Recording)
    ||| (pre == RecorderControllerState::Recording && post == RecorderControllerState::Paused)
    ||| (pre == RecorderControllerState::Paused && post == RecorderControllerState::Recording)
    ||| (pre == RecorderControllerState::Delayed && post == RecorderControllerState::Idle)
    ||| (pre == RecorderControllerState::Delayed && post == RecorderControllerState::Flushing)
    ||| (pre == RecorderControllerState::Recording && post == RecorderControllerState::Flushing)
    ||| (pre == RecorderControllerState::Paused && post == RecorderControllerState::Flushing)
    ||| (pre == RecorderControllerState::Flushing && post == RecorderControllerState::Idle)
}

/// Every step the controller can take moves along an edge of the
/// lifecycle: whatever sequence of operations and collaborator events
/// is delivered, no transition ever occurs that the lifecycle does not
/// define.
pub proof fn lemma_every_step_takes_a_lifecycle_edge(
    v: ControllerView,
    record_delay: u32,
    selection: Option<Region>,
    response: RecorderResponse,
)
    requires
        controller_inv(v),
    ensures
        lifecycle_edge(v.state, step_start(v, record_delay).0.state),
        lifecycle_edge(v.state, step_finish_area_selection(v, selection).0.state),
        lifecycle_edge(v.state, step_cancel_delay(v).0.state),
        lifecycle_edge(v.state, step_stop(v).0.state),
        lifecycle_edge(v.state, step_pause(v).0.state),
        lifecycle_edge(v.state, step_resume(v).0.state),
        lifecycle_edge(v.state, step_tick(v).0.state),
        lifecycle_edge(v.state, step_finish_flush(v, response).0.state),
{
}

/// In every well-formed controller the session state is read off the
/// timer through the table `session_state_of`, unless the `Flushing`
/// override is active, in which case the timer is already stopped.
pub proof fn lemma_state_follows_timer(v: ControllerView)
    requires
        controller_inv(v),
    ensures
        v.state == RecorderControllerState::Flushing ==> v.timer.state
            == crate::timer::TimerState::Stopped,
        v.state != RecorderControllerState::Flushing ==> v.state == session_state_of(
            v.timer.state,
        ),
{
}

/// Whenever the session is idle, the elapsed time is zero.
pub proof fn lemma_idle_time_zero(v: ControllerView)
    requires
        controller_inv(v),
        v.state == RecorderControllerState::Idle,
    ensures
        v.time == 0,
{
}

/// Cancelling the delay is idempotent: a second `cancel_delay`, made
/// while the session is already back to idle, changes nothing, emits
/// no notification — in particular no response event, which
/// `cancel_delay` never emits — and asks for no action.
pub proof fn lemma_cancel_delay_idempotent(v: ControllerView)
    requires
        controller_inv(v),
    ensures
        !emits_response(step_cancel_delay(v).1),
        step_cancel_delay(step_cancel_delay(v).0).0 == step_cancel_delay(v).0,
        step_cancel_delay(step_cancel_delay(v).0).1 == Seq::<Notification>::empty(),
        step_cancel_delay(step_cancel_delay(v).0).2 == None::<crate::events::Action>,
{
    lemma_notes_without_response(step_cancel_delay(v).1);
}

/// No operation and no collaborator event other than the backend
/// completion of a flush ever emits a response event.
pub proof fn lemma_no_response_without_completion(
    v: ControllerView,
    record_delay: u32,
    selection: Option<Region>,
    response: RecorderResponse,
)
    requires
        controller_inv(v),
    ensures
        !emits_response(step_start(v, record_delay).1),
        !emits_response(step_finish_area_selection(v, selection).1),
        !emits_response(step_cancel_delay(v).1),
        !emits_response(step_stop(v).1),
        !emits_response(step_pause(v).1),
        !emits_response(step_resume(v).1),
        !emits_response(step_tick(v).1),
        v.state != RecorderControllerState::Flushing ==> !emits_response(
            step_finish_flush(v, response).1,
        ),
{
    lemma_notes_without_response(step_start(v, record_delay).1);
    lemma_notes_without_response(step_finish_area_selection(v, selection).1);
    lemma_notes_without_response(step_cancel_delay(v).1);
    lemma_notes_without_response(step_stop(v).1);
    lemma_notes_without_response(step_pause(v).1);
    lemma_notes_without_response(step_resume(v).1);
    lemma_notes_without_response(step_tick(v).1);
    if v.state != RecorderControllerState::Flushing {
        lemma_notes_without_response(step_finish_flush(v, response).1);
    }
}

/// Exactly one response event per completed `stop()` — never zero,
/// never two. The `stop` itself emits none; the backend completion
/// that ends the resulting flush emits exactly one, carrying the
/// backend's response; and a duplicate completion delivered after
/// that emits none, because the session has already left `Flushing`.
pub proof fn lemma_one_response_per_stop(
    v: ControllerView,
    response: RecorderResponse,
    duplicate: RecorderResponse,
)
    requires
        controller_inv(v),
        v.state == RecorderControllerState::Delayed || v.state
            == RecorderControllerState::Recording || v.state == RecorderControllerState::Paused,
    ensures
        !emits_response(step_stop(v).1),
        step_stop(v).0.state == RecorderControllerState::Flushing,
        step_finish_flush(step_stop(v).0, response).1 == seq![
            Notification::StateChanged(RecorderControllerState::Idle),
            Notification::Response(response),
        ],
        step_finish_flush(step_stop(v).0, response).0.state == RecorderControllerState::Idle,
        !emits_response(
            step_finish_flush(step_finish_flush(step_stop(v).0, response).0, duplicate).1,
        ),
{
    lemma_notes_without_response(step_stop(v).1);
    lemma_notes_without_response(
        step_finish_flush(step_finish_flush(step_stop(v).0, response).0, duplicate).1,
    );
}

/// While the session is flushing, timer-driven recomputation of the
/// session state is suppressed: a tick still in flight, and every
/// caller operation, leaves the controller exactly as it is, and only
/// the backend's completion ends the state.
pub proof fn lemma_flushing_waits_for_completion(v: ControllerView, record_delay: u32)
    requires
        controller_inv(v),
        v.state == RecorderControllerState::Flushing,
    ensures
        step_tick(v) == (v, Seq::<Notification>::empty(), None::<crate::events::Action>),
        step_start(v, record_delay) == (v, Seq::<Notification>::empty(), None::<
            crate::events::Action,
        >),
        step_cancel_delay(v) == (v, Seq::<Notification>::empty(), None::<crate::events::Action>),
        step_stop(v) == (v, Seq::<Notification>::empty(), None::<crate::events::Action>),
        step_pause(v) == (v, Seq::<Notification>::empty(), None::<crate::events::Action>),
        step_resume(v) == (v, Seq::<Notification>::empty(), None::<crate::events::Action>),
{
}

/// True when every state-changed notification of the sequence comes
/// before every time-changed notification.
pub open spec fn state_change_first(notes: Seq<Notification>) -> bool {
    forall|i: int, j: int|
        0 <= i < notes.len() && 0 <= j < notes.len() && notes[i] is StateChanged && notes[j]
            is TimeChanged ==> i < j
}

/// For every step, the state-changed notification of a transition is
/// delivered before the time change that accompanies it, so listeners
/// can reconfigure before they receive the reset or advanced time.
pub proof fn lemma_state_change_notified_first(
    v: ControllerView,
    record_delay: u32,
    selection: Option<Region>,
    response: RecorderResponse,
)
    requires
        controller_inv(v),
    ensures
        state_change_first(step_start(v, record_delay).1),
        state_change_first(step_finish_area_selection(v, selection).1),
        state_change_first(step_cancel_delay(v).1),
        state_change_first(step_stop(v).1),
        state_change_first(step_pause(v).1),
        state_change_first(step_resume(v).1),
        state_change_first(step_tick(v).1),
        state_change_first(step_finish_flush(v, response).1),
{
    lemma_pair_state_change_first(step_start(v, record_delay).1);
    lemma_pair_state_change_first(step_finish_area_selection(v, selection).1);
    lemma_pair_state_change_first(step_cancel_delay(v).1);
    lemma_pair_state_change_first(step_stop(v).1);
    lemma_pair_state_change_first(step_pause(v).1);
    lemma_pair_state_change_first(step_resume(v).1);
    lemma_pair_state_change_first(step_tick(v).1);
    lemma_pair_state_change_first(step_finish_flush(v, response).1);
}

/// A sequence of at most two notifications whose later entry is no
/// state change delivers state changes first.
proof fn lemma_pair_state_change_first(notes: Seq<Notification>)
    requires
        notes.len() <= 2,
        notes.len() == 2 ==> !(notes[1] is StateChanged),
    ensures
        state_change_first(notes),
{
    assert forall|i: int, j: int|
        0 <= i < notes.len() && 0 <= j < notes.len() && notes[i] is StateChanged && notes[j]
            is TimeChanged implies i < j by {
        assert(i == 0);
        assert(j != 0);
    }
}

/// A notification sequence in which every entry is a state or time
/// change holds no response event.
proof fn lemma_notes_without_response(notes: Seq<Notification>)
    requires
        forall|i: int| 0 <= i < notes.len() ==> !(notes[i] is Response),
    ensures
        !emits_response(notes),
{
}

} // verus!
