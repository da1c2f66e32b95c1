//! Session controller: the authoritative recording lifecycle.
//!
//! The controller owns one timer and coordinates it with two
//! collaborators driven by the caller: an interactive area selector
//! and an asynchronous capture backend. Every public operation and
//! every collaborator event is specified by a step function over the
//! controller's mathematical model, so that the full transition system
//! is stated once, in one place, and the executable code is proved to
//! follow it exactly.

use vstd::prelude::*;
use crate::timer::{KhaTimer, TimerState, TimerView, timer_inv};
use crate::events::{Action, Effects, Notification, RecorderResponse, Region};

verus! {

/// The authoritative session states.
#[derive(Clone, Copy, Debug, PartialEq, Eq, Structural)]
pub enum RecorderControllerState {
    Idle,
    Delayed,
    Recording,
    Paused,
    Flushing,
}

impl Default for RecorderControllerState {
    /// A controller starts out idle.
    fn default() -> (s: Self)
        ensures
            s == RecorderControllerState::Idle,
    {
        RecorderControllerState::Idle
    }
}

/// The table that maps timer states to session states. The `Flushing`
/// session state is layered on top of this table by `stop()` and is
/// never produced by it.
pub open spec fn session_state_of(t: TimerState) -> RecorderControllerState {
    match t {
        TimerState::Stopped => RecorderControllerState::Idle,
        TimerState::Delayed => RecorderControllerState::Delayed,
        TimerState::Paused => RecorderControllerState::Paused,
        TimerState::Running => RecorderControllerState::Recording,
    }
}

/// Mathematical model of a session controller.
pub struct ControllerView {
    /// The authoritative session state.
    pub state: RecorderControllerState,
    /// The elapsed recording seconds, mirrored from the timer.
    pub time: u32,
    /// The pre-roll delay configured by the last `start`.
    pub record_delay: u32,
    /// True exactly while the area selector runs.
    pub is_selecting_area: bool,
    /// The owned timer's model.
    pub timer: TimerView,
}

/// Well-formedness of a controller model. Outside of `Flushing` the
/// session state is exactly the timer's state read through
/// `session_state_of`; while `Flushing` the timer has already been
/// stopped and only the backend's response can end the state. The
/// mirrored time always equals the timer's elapsed time, and the area
/// selector only ever runs while the session is idle.
pub open spec fn controller_inv(v: ControllerView) -> bool {
    &&& timer_inv(v.timer)
    &&& v.time == v.timer.elapsed
    &&& (v.state == RecorderControllerState::Flushing ==> v.timer.state == TimerState::Stopped)
    &&& (v.state != RecorderControllerState::Flushing ==> v.state == session_state_of(
        v.timer.state,
    ))
    &&& (v.is_selecting_area ==> v.state == RecorderControllerState::Idle)
}

/// What one step of the transition system produces: the new model, the
/// notifications to listeners in emission order, and at most one
/// collaborator action for the caller.
pub type StepResult = (ControllerView, Seq<Notification>, Option<Action>);

/// A model step that changes nothing and emits nothing.
pub open spec fn step_noop(v: ControllerView) -> StepResult {
    (v, Seq::<Notification>::empty(), None::<Action>)
}

/// `start(record_delay)`: valid only while idle and not already
/// selecting. It records the configured delay and asks the caller to
/// run the area selector; the session stays idle until the selection
/// result arrives. From any other state it is a no-op.
pub open spec fn step_start(v: ControllerView, record_delay: u32) -> StepResult {
    if v.state == RecorderControllerState::Idle && !v.is_selecting_area {
        (
            ControllerView { record_delay, is_selecting_area: true, ..v },
            Seq::<Notification>::empty(),
            Some(Action::SelectArea),
        )
    } else {
        step_noop(v)
    }
}

/// The area selector finished. A selected region starts the timer with
/// the configured delay and asks the caller to begin the capture: a
/// positive delay enters `Delayed`, a zero delay enters `Recording`
/// directly, with the state change notified before the time reset. A
/// cancelled selection leaves the session idle with nothing started
/// and nothing notified. Without a selection in progress the event is
/// ignored.
pub open spec fn step_finish_area_selection(v: ControllerView, selection: Option<Region>) -> StepResult {
    if v.is_selecting_area {
        match selection {
            Some(region) => {
                if v.record_delay > 0 {
                    (
                        ControllerView {
                            state: RecorderControllerState::Delayed,
                            is_selecting_area: false,
                            timer: TimerView {
                                state: TimerState::Delayed,
                                elapsed: 0,
                                countdown: v.record_delay,
                            },
                            ..v
                        },
                        seq![Notification::StateChanged(RecorderControllerState::Delayed)],
                        Some(Action::BeginCapture(region, v.record_delay)),
                    )
                } else {
                    (
                        ControllerView {
                            state: RecorderControllerState::Recording,
                            time: 0,
                            is_selecting_area: false,
                            timer: TimerView {
                                state: TimerState::Running,
                                elapsed: 0,
                                countdown: 0,
                            },
                            ..v
                        },
                        seq![
                            Notification::StateChanged(RecorderControllerState::Recording),
                            Notification::TimeChanged(0),
                        ],
                        Some(Action::BeginCapture(region, 0)),
                    )
                }
            },
            None => (
                ControllerView { is_selecting_area: false, ..v },
                Seq::<Notification>::empty(),
                None::<Action>,
            ),
        }
    } else {
        step_noop(v)
    }
}

/// `cancel_delay()`: valid only from `Delayed`. The timer stops, the
/// session returns to idle with the time reset notified after the
/// state change, and the caller is asked to abandon the pending
/// capture. No response event is emitted. From any other state —
/// in particular when called a second time, already idle — it is a
/// no-op.
pub open spec fn step_cancel_delay(v: ControllerView) -> StepResult {
    if v.state == RecorderControllerState::Delayed {
        (
            ControllerView {
                state: RecorderControllerState::Idle,
                time: 0,
                timer: TimerView { state: TimerState::Stopped, elapsed: 0, countdown: 0 },
                ..v
            },
            seq![
                Notification::StateChanged(RecorderControllerState::Idle),
                Notification::TimeChanged(0),
            ],
            Some(Action::AbandonCapture),
        )
    } else {
        step_noop(v)
    }
}

/// `stop()`: valid from `Delayed`, `Recording` and `Paused`. The timer
/// stops, the session enters `Flushing` — overriding the timer table —
/// and the caller is asked to have the backend finalize the capture.
/// The response event comes only later, with the backend's completion.
/// From `Idle` or `Flushing` it is a no-op.
pub open spec fn step_stop(v: ControllerView) -> StepResult {
    if v.state == RecorderControllerState::Delayed || v.state
        == RecorderControllerState::Recording || v.state == RecorderControllerState::Paused {
        (
            ControllerView {
                state: RecorderControllerState::Flushing,
                time: 0,
                timer: TimerView { state: TimerState::Stopped, elapsed: 0, countdown: 0 },
                ..v
            },
            seq![
                Notification::StateChanged(RecorderControllerState::Flushing),
                Notification::TimeChanged(0),
            ],
            Some(Action::FinalizeCapture),
        )
    } else {
        step_noop(v)
    }
}

/// `pause()`: valid only from `Recording`. The timer pauses with its
/// elapsed time frozen, and the caller is asked to pause the backend.
/// From any other state it is a no-op.
pub open spec fn step_pause(v: ControllerView) -> StepResult {
    if v.state == RecorderControllerState::Recording {
        (
            ControllerView {
                state: RecorderControllerState::Paused,
                timer: TimerView { state: TimerState::Paused, ..v.timer },
                ..v
            },
            seq![Notification::StateChanged(RecorderControllerState::Paused)],
            Some(Action::PauseCapture),
        )
    } else {
        step_noop(v)
    }
}

/// `resume()`: valid only from `Paused`. The timer resumes from the
/// frozen elapsed time, and the caller is asked to resume the backend.
/// From any other state it is a no-op.
pub open spec fn step_resume(v: ControllerView) -> StepResult {
    if v.state == RecorderControllerState::Paused {
        (
            ControllerView {
                state: RecorderControllerState::Recording,
                timer: TimerView { state: TimerState::Running, ..v.timer },
                ..v
            },
            seq![Notification::StateChanged(RecorderControllerState::Recording)],
            Some(Action::ResumeCapture),
        )
    } else {
        step_noop(v)
    }
}

/// A one-second tick. While `Delayed` the countdown decreases silently
/// until the tick that reaches zero, which moves the session to
/// `Recording` and notifies the state change before the elapsed-time
/// reset. While `Recording` the elapsed time increases and is
/// notified. In every other state — in particular a tick still in
/// flight after a cancel or stop — the tick is ignored.
pub open spec fn step_tick(v: ControllerView) -> StepResult {
    if v.state == RecorderControllerState::Delayed {
        if v.timer.countdown > 1 {
            (
                ControllerView {
                    timer: TimerView { countdown: (v.timer.countdown - 1) as u32, ..v.timer },
                    ..v
                },
                Seq::<Notification>::empty(),
                None::<Action>,
            )
        } else {
            (
                ControllerView {
                    state: RecorderControllerState::Recording,
                    time: 0,
                    timer: TimerView { state: TimerState::Running, elapsed: 0, countdown: 0 },
                    ..v
                },
                seq![
                    Notification::StateChanged(RecorderControllerState::Recording),
                    Notification::TimeChanged(0),
                ],
                None::<Action>,
            )
        }
    } else if v.state == RecorderControllerState::Recording {
        (
            ControllerView {
                time: (v.time + 1) as u32,
                timer: TimerView { elapsed: (v.timer.elapsed + 1) as u32, ..v.timer },
                ..v
            },
            seq![Notification::TimeChanged((v.time + 1) as u32)],
            None::<Action>,
        )
    } else {
        step_noop(v)
    }
}

/// The backend's asynchronous completion arrived. Valid only while
/// `Flushing`: the session returns to idle and the response — success
/// or failure alike — is delivered to listeners exactly once, after
/// the state change. In any other state the event is ignored, so a
/// duplicate completion can never produce a second response event.
pub open spec fn step_finish_flush(v: ControllerView, response: RecorderResponse) -> StepResult {
    if v.state == RecorderControllerState::Flushing {
        (
            ControllerView { state: RecorderControllerState::Idle, ..v },
            seq![
                Notification::StateChanged(RecorderControllerState::Idle),
                Notification::Response(response),
            ],
            None::<Action>,
        )
    } else {
        step_noop(v)
    }
}

/// True when a response event occurs among the notifications.
pub open spec fn emits_response(notes: Seq<Notification>) -> bool {
    exists|i: int| 0 <= i < notes.len() && notes[i] is Response
}

/// Session controller.
///
/// Every operation returns the `Effects` it produced; the caller
/// delivers the notifications to listeners in order and performs the
/// collaborator action, feeding the collaborator's answer back through
/// `finish_area_selection`, `tick` or `finish_flush`.
pub struct KhaRecorderController {
    timer: KhaTimer,
    state: RecorderControllerState,
    time: u32,
    record_delay: u32,
    is_selecting_area: bool,
}

impl View for KhaRecorderController {
    type V = ControllerView;

    closed spec fn view(&self) -> ControllerView {
        ControllerView {
            state: self.state,
            time: self.time,
            record_delay: self.record_delay,
            is_selecting_area: self.is_selecting_area,
            timer: self.timer@,
        }
    }
}

impl KhaRecorderController {
    /// Well-formedness of this controller.
    pub open spec fn inv(&self) -> bool {
        controller_inv(self@)
    }

    /// A fresh controller: idle, with no elapsed time, no configured
    /// delay and no selection in progress.
    pub fn new() -> (c: KhaRecorderController)
        ensures
            c.inv(),
            c@ == (ControllerView {
                state: RecorderControllerState::Idle,
                time: 0,
                record_delay: 0,
                is_selecting_area: false,
                timer: TimerView { state: TimerState::Stopped, elapsed: 0, countdown: 0 },
            }),
    {
        KhaRecorderController {
            timer: KhaTimer::new(),
            state: RecorderControllerState::Idle,
            time: 0,
            record_delay: 0,
            is_selecting_area: false,
        }
    }

    /// The authoritative session state.
    pub fn state(&self) -> (s: RecorderControllerState)
        ensures
            s == self@.state,
    {
        self.state
    }

    /// The elapsed recording seconds.
    pub fn time(&self) -> (t: u32)
        ensures
            t == self@.time,
    {
        self.time
    }

    /// True exactly while the area selector runs.
    pub fn is_selecting_area(&self) -> (b: bool)
        ensures
            b == self@.is_selecting_area,
    {
        self.is_selecting_area
    }

    /// The pre-roll delay seconds still to count down.
    pub fn delay_remaining(&self) -> (d: u32)
        ensures
            d == self@.timer.countdown,
    {
        self.timer.countdown()
    }

    /// True if and only if the session is paused.
    pub fn is_paused(&self) -> (b: bool)
        ensures
            b == (self@.state == RecorderControllerState::Paused),
    {
        self.state == RecorderControllerState::Paused
    }

    /// True if and only if quitting now would lose no recording: the
    /// session is idle or still counting down its pre-roll delay.
    pub fn is_safe_to_quit(&self) -> (b: bool)
        ensures
            b == (self@.state == RecorderControllerState::Idle || self@.state
                == RecorderControllerState::Delayed),
    {
        self.state == RecorderControllerState::Idle || self.state
            == RecorderControllerState::Delayed
    }

    /// Begin a session: see `step_start`.
    pub fn start(&mut self, record_delay: u32) -> (eff: Effects)
        requires
            old(self).inv(),
        ensures
            final(self).inv(),
            final(self)@ == step_start(old(self)@, record_delay).0,
            eff.notifications@ == step_start(old(self)@, record_delay).1,
            eff.action == step_start(old(self)@, record_delay).2,
    {
        if self.state == RecorderControllerState::Idle && !self.is_selecting_area {
            self.record_delay = record_delay;
            self.is_selecting_area = true;
            Effects { notifications: Vec::new(), action: Some(Action::SelectArea) }
        } else {
            Effects::none()
        }
    }

    /// Deliver the area selector's result: see
    /// `step_finish_area_selection`.
    pub fn finish_area_selection(&mut self, selection: Option<Region>) -> (eff: Effects)
        requires
            old(self).inv(),
        ensures
            final(self).inv(),
            final(self)@ == step_finish_area_selection(old(self)@, selection).0,
            eff.notifications@ == step_finish_area_selection(old(self)@, selection).1,
            eff.action == step_finish_area_selection(old(self)@, selection).2,
    {
        if self.is_selecting_area {
            self.is_selecting_area = false;
            match selection {
                Some(region) => {
                    let delay = self.record_delay;
                    self.timer.start(delay);
                    let mut notifications: Vec<Notification> = Vec::new();
                    if delay > 0 {
                        self.state = RecorderControllerState::Delayed;
                        notifications.push(
                            Notification::StateChanged(RecorderControllerState::Delayed),
                        );
                    } else {
                        self.state = RecorderControllerState::Recording;
                        self.time = 0;
                        notifications.push(
                            Notification::StateChanged(RecorderControllerState::Recording),
                        );
                        notifications.push(Notification::TimeChanged(0));
                    }
                    Effects {
                        notifications,
                        action: Some(Action::BeginCapture(region, delay)),
                    }
                },
                None => Effects::none(),
            }
        } else {
            Effects::none()
        }
    }

    /// Abort the pre-roll countdown: see `step_cancel_delay`.
    pub fn cancel_delay(&mut self) -> (eff: Effects)
        requires
            old(self).inv(),
        ensures
            final(self).inv(),
            final(self)@ == step_cancel_delay(old(self)@).0,
            eff.notifications@ == step_cancel_delay(old(self)@).1,
            eff.action == step_cancel_delay(old(self)@).2,
    {
        if self.state == RecorderControllerState::Delayed {
            self.timer.stop();
            self.state = RecorderControllerState::Idle;
            self.time = 0;
            let mut notifications: Vec<Notification> = Vec::new();
            notifications.push(Notification::StateChanged(RecorderControllerState::Idle));
            notifications.push(Notification::TimeChanged(0));
            Effects { notifications, action: Some(Action::AbandonCapture) }
        } else {
            Effects::none()
        }
    }

    /// End the session and flush the capture: see `step_stop`.
    pub fn stop(&mut self) -> (eff: Effects)
        requires
            old(self).inv(),
        ensures
            final(self).inv(),
            final(self)@ == step_stop(old(self)@).0,
            eff.notifications@ == step_stop(old(self)@).1,
            eff.action == step_stop(old(self)@).2,
    {
        if self.state == RecorderControllerState::Delayed || self.state
            == RecorderControllerState::Recording || self.state
            == RecorderControllerState::Paused {
            self.timer.stop();
            self.state = RecorderControllerState::Flushing;
            self.time = 0;
            let mut notifications: Vec<Notification> = Vec::new();
            notifications.push(Notification::StateChanged(RecorderControllerState::Flushing));
            notifications.push(Notification::TimeChanged(0));
            Effects { notifications, action: Some(Action::FinalizeCapture) }
        } else {
            Effects::none()
        }
    }

    /// Pause the recording: see `step_pause`.
    pub fn pause(&mut self) -> (eff: Effects)
        requires
            old(self).inv(),
        ensures
            final(self).inv(),
            final(self)@ == step_pause(old(self)@).0,
            eff.notifications@ == step_pause(old(self)@).1,
            eff.action == step_pause(old(self)@).2,
    {
        if self.state == RecorderControllerState::Recording {
            self.timer.pause();
            self.state = RecorderControllerState::Paused;
            let mut notifications: Vec<Notification> = Vec::new();
            notifications.push(Notification::StateChanged(RecorderControllerState::Paused));
            Effects { notifications, action: Some(Action::PauseCapture) }
        } else {
            Effects::none()
        }
    }

    /// Resume the paused recording: see `step_resume`.
    pub fn resume(&mut self) -> (eff: Effects)
        requires
            old(self).inv(),
        ensures
            final(self).inv(),
            final(self)@ == step_resume(old(self)@).0,
            eff.notifications@ == step_resume(old(self)@).1,
            eff.action == step_resume(old(self)@).2,
    {
        if self.state == RecorderControllerState::Paused {
            self.timer.resume();
            self.state = RecorderControllerState::Recording;
            let mut notifications: Vec<Notification> = Vec::new();
            notifications.push(Notification::StateChanged(RecorderControllerState::Recording));
            Effects { notifications, action: Some(Action::ResumeCapture) }
        } else {
            Effects::none()
        }
    }

    /// Deliver a one-second tick: see `step_tick`.
    pub fn tick(&mut self) -> (eff: Effects)
        requires
            old(self).inv(),
            old(self)@.time < u32::MAX,
        ensures
            final(self).inv(),
            final(self)@ == step_tick(old(self)@).0,
            eff.notifications@ == step_tick(old(self)@).1,
            eff.action == step_tick(old(self)@).2,
    {
        if self.state == RecorderControllerState::Delayed {
            self.timer.tick();
            if self.timer.state() == TimerState::Running {
                self.state = RecorderControllerState::Recording;
                self.time = 0;
                let mut notifications: Vec<Notification> = Vec::new();
                notifications.push(
                    Notification::StateChanged(RecorderControllerState::Recording),
                );
                notifications.push(Notification::TimeChanged(0));
                Effects { notifications, action: None }
            } else {
                Effects::none()
            }
        } else if self.state == RecorderControllerState::Recording {
            self.timer.tick();
            let now = self.timer.elapsed();
            self.time = now;
            let mut notifications: Vec<Notification> = Vec::new();
            notifications.push(Notification::TimeChanged(now));
            Effects { notifications, action: None }
        } else {
            Effects::none()
        }
    }

    /// Deliver the backend's completion: see `step_finish_flush`.
    pub fn finish_flush(&mut self, response: RecorderResponse) -> (eff: Effects)
        requires
            old(self).inv(),
        ensures
            final(self).inv(),
            final(self)@ == step_finish_flush(old(self)@, response).0,
            eff.notifications@ == step_finish_flush(old(self)@, response).1,
            eff.action == step_finish_flush(old(self)@, response).2,
    {
        if self.state == RecorderControllerState::Flushing {
            self.state = RecorderControllerState::Idle;
            let mut notifications: Vec<Notification> = Vec::new();
            notifications.push(Notification::StateChanged(RecorderControllerState::Idle));
            notifications.push(Notification::Response(response));
            Effects { notifications, action: None }
        } else {
            Effects::none()
        }
    }
}

} // verus!
