//! Elapsed/delay timer: a small state machine over whole seconds.
//!
//! The timer counts a pre-roll delay down while `Delayed` and counts
//! elapsed recording time up while `Running`. The owner delivers one
//! `tick` per second; the timer itself schedules nothing.

use vstd::prelude::*;

verus! {

/// The timer's lifecycle states.
#[derive(Clone, Copy, Debug, PartialEq, Eq, Structural)]
pub enum TimerState {
    Stopped,
    Delayed,
    Paused,
    Running,
}

/// Mathematical model of a timer: its state, the elapsed seconds, and
/// the seconds of pre-roll delay still to count down.
pub struct TimerView {
    pub state: TimerState,
    pub elapsed: u32,
    pub countdown: u32,
}

/// Elapsed/delay timer.
///
/// `elapsed` is zero while `Stopped` or `Delayed`, frozen while
/// `Paused`, and counts up once per tick while `Running`. `countdown`
/// is nonzero exactly while `Delayed`; the tick that brings it to zero
/// moves the timer to `Running`.
pub struct KhaTimer {
    state: TimerState,
    elapsed: u32,
    countdown: u32,
}

impl View for KhaTimer {
    type V = TimerView;

    closed spec fn view(&self) -> TimerView {
        TimerView { state: self.state, elapsed: self.elapsed, countdown: self.countdown }
    }
}

/// Well-formedness of a timer model: elapsed time is zero unless the
/// timer has reached `Running` at least once since it was last stopped,
/// and a countdown remains only while `Delayed`.
pub open spec fn timer_inv(v: TimerView) -> bool {
    &&& (v.state == TimerState::Stopped ==> v.elapsed == 0 && v.countdown == 0)
    &&& (v.state == TimerState::Delayed ==> v.elapsed == 0 && v.countdown >= 1)
    &&& (v.state == TimerState::Paused ==> v.countdown == 0)
    &&& (v.state == TimerState::Running ==> v.countdown == 0)
}

impl KhaTimer {
    /// Well-formedness of this timer.
    pub open spec fn inv(&self) -> bool {
        timer_inv(self@)
    }

    /// A fresh timer: stopped, with no elapsed time and no countdown.
    pub fn new() -> (t: KhaTimer)
        ensures
            t.inv(),
            t@ == (TimerView { state: TimerState::Stopped, elapsed: 0, countdown: 0 }),
    {
        KhaTimer { state: TimerState::Stopped, elapsed: 0, countdown: 0 }
    }

    /// The current state.
    pub fn state(&self) -> (s: TimerState)
        ensures
            s == self@.state,
    {
        self.state
    }

    /// The elapsed recording seconds.
    pub fn elapsed(&self) -> (e: u32)
        ensures
            e == self@.elapsed,
    {
        self.elapsed
    }

    /// The pre-roll delay seconds still to count down.
    pub fn countdown(&self) -> (c: u32)
        ensures
            c == self@.countdown,
    {
        self.countdown
    }

    /// Start a session: valid only from `Stopped`. A positive delay
    /// begins the countdown; a zero delay goes straight to `Running`.
    /// From any other state the call is a no-op.
    pub fn start(&mut self, delay: u32)
        requires
            old(self).inv(),
        ensures
            final(self).inv(),
            old(self)@.state == TimerState::Stopped && delay > 0 ==> final(self)@ == (
            TimerView { state: TimerState::Delayed, elapsed: 0, countdown: delay }),
            old(self)@.state == TimerState::Stopped && delay == 0 ==> final(self)@ == (
            TimerView { state: TimerState::Running, elapsed: 0, countdown: 0 }),
            old(self)@.state != TimerState::Stopped ==> final(self)@ == old(self)@,
    {
        if self.state == TimerState::Stopped {
            if delay > 0 {
                self.state = TimerState::Delayed;
                self.countdown = delay;
            } else {
                self.state = TimerState::Running;
                self.elapsed = 0;
            }
        }
    }

    /// Pause: valid only from `Running`; the elapsed time freezes.
    /// From any other state the call is a no-op.
    pub fn pause(&mut self)
        requires
            old(self).inv(),
        ensures
            final(self).inv(),
            old(self)@.state == TimerState::Running ==> final(self)@ == (TimerView {
                state: TimerState::Paused,
                elapsed: old(self)@.elapsed,
                countdown: 0,
            }),
            old(self)@.state != TimerState::Running ==> final(self)@ == old(self)@,
    {
        if self.state == TimerState::Running {
            self.state = TimerState::Paused;
        }
    }

    /// Resume: valid only from `Paused`; counting continues from the
    /// frozen elapsed time. From any other state the call is a no-op.
    pub fn resume(&mut self)
        requires
            old(self).inv(),
        ensures
            final(self).inv(),
            old(self)@.state == TimerState::Paused ==> final(self)@ == (TimerView {
                state: TimerState::Running,
                elapsed: old(self)@.elapsed,
                countdown: 0,
            }),
            old(self)@.state != TimerState::Paused ==> final(self)@ == old(self)@,
    {
        if self.state == TimerState::Paused {
            self.state = TimerState::Running;
        }
    }

    /// Stop: valid from every state. The elapsed time and any pending
    /// countdown reset to zero.
    pub fn stop(&mut self)
        requires
            old(self).inv(),
        ensures
            final(self).inv(),
            final(self)@ == (TimerView { state: TimerState::Stopped, elapsed: 0, countdown: 0 }),
    {
        self.state = TimerState::Stopped;
        self.elapsed = 0;
        self.countdown = 0;
    }

    /// One second passed. While `Delayed` the countdown decreases, and
    /// the tick that reaches zero moves the timer to `Running` with
    /// elapsed time zero; while `Running` the elapsed time increases.
    /// In any other state — in particular after a stop already
    /// cancelled the countdown — the tick is ignored.
    pub fn tick(&mut self)
        requires
            old(self).inv(),
            old(self)@.state == TimerState::Running ==> old(self)@.elapsed < u32::MAX,
        ensures
            final(self).inv(),
            old(self)@.state == TimerState::Delayed && old(self)@.countdown > 1 ==> final(self)@
                == (TimerView {
                state: TimerState::Delayed,
                elapsed: 0,
                countdown: (old(self)@.countdown - 1) as u32,
            }),
            old(self)@.state == TimerState::Delayed && old(self)@.countdown == 1 ==> final(self)@
                == (TimerView { state: TimerState::Running, elapsed: 0, countdown: 0 }),
            old(self)@.state == TimerState::Running ==> final(self)@ == (TimerView {
                state: TimerState::Running,
                elapsed: (old(self)@.elapsed + 1) as u32,
                countdown: 0,
            }),
            old(self)@.state == TimerState::Stopped || old(self)@.state == TimerState::Paused
                ==> final(self)@ == old(self)@,
    {
        if self.state == TimerState::Delayed {
            self.countdown = self.countdown - 1;
            if self.countdown == 0 {
                self.state = TimerState::Running;
                self.elapsed = 0;
            }
        } else if self.state == TimerState::Running {
            self.elapsed = self.elapsed + 1;
        }
    }
}

} // verus!
