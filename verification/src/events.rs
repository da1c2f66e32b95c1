//! Plain values exchanged with the controller's collaborators: the
//! screen region handed to the capture backend, the backend's final
//! response, the notifications sent to listeners, and the collaborator
//! actions the controller asks its caller to perform.

use vstd::prelude::*;
use crate::controller::RecorderControllerState;

verus! {

/// A selected screen region, as the area selector reports it.
///
/// The controller never interprets the fields; it only hands the
/// region on to the capture backend.
#[derive(Clone, Copy, Debug, PartialEq, Eq, Structural)]
pub struct Region {
    pub x: u32,
    pub y: u32,
    pub width: u32,
    pub height: u32,
}

/// The capture backend's final word on a recording attempt: the path
/// of the finished artifact, or the reason the attempt failed.
#[derive(Clone, Debug, PartialEq, Eq)]
pub enum RecorderResponse {
    Success(String),
    Failed(String),
}

/// One notification to listeners. An operation's notifications are
/// delivered in emission order: a state change always precedes the
/// time change or the response that accompanies it.
#[derive(Clone, Debug, PartialEq, Eq)]
pub enum Notification {
    StateChanged(RecorderControllerState),
    TimeChanged(u32),
    Response(RecorderResponse),
}

/// A collaborator action the caller must perform after an operation:
/// run the interactive area selector, or drive the capture backend.
#[derive(Clone, Copy, Debug, PartialEq, Eq, Structural)]
pub enum Action {
    SelectArea,
    BeginCapture(Region, u32),
    PauseCapture,
    ResumeCapture,
    FinalizeCapture,
    AbandonCapture,
}

/// Everything externally visible that one operation produced: the
/// notifications to deliver to listeners, in order, and at most one
/// collaborator action for the caller to perform.
pub struct Effects {
    pub notifications: Vec<Notification>,
    pub action: Option<Action>,
}

impl Effects {
    /// Effects of an operation that was a no-op: nothing to deliver,
    /// nothing to perform.
    pub fn none() -> (e: Effects)
        ensures
            e.notifications@ == Seq::<Notification>::empty(),
            e.action is None,
    {
        Effects { notifications: Vec::new(), action: None }
    }
}

} // verus!
