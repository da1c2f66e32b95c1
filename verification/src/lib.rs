//! Core of a screen-recording session controller.
//!
//! The library owns the recording lifecycle: it turns caller intents
//! (start, pause, resume, stop, cancel-delay) and collaborator events
//! (timer ticks, area-selection results, capture-backend completions)
//! into well-defined state transitions, and reports every externally
//! visible change as an explicit notification value.
//!
//! The interactive pieces — the on-screen area selector, the capture
//! pipeline, the widgets — are collaborators outside this crate: the
//! controller tells its caller which collaborator action to perform
//! next, and the caller feeds the collaborator's answer back in.

pub mod events;
pub mod timer;
pub mod controller;
pub mod laws;
