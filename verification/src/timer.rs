//! Timers and timer actions, as they cross the boundary to the platform.

use vstd::prelude::*;
use crate::model::{ActionView, TimerView};

verus! {

/// A one-shot timer that the scheduler wants armed.
#[derive(Clone, Copy, Debug, PartialEq, Eq, Structural)]
pub struct Timer {
    /// Names this timer.  It comes back with the event that reports the
    /// firing, and no two timers of one scheduler share it.
    pub token: u64,
    /// Time until the timer fires, in milliseconds.
    pub delay_ms: u32,
}

impl View for Timer {
    type V = TimerView;

    open spec fn view(&self) -> TimerView {
        TimerView { token: self.token as nat, delay_ms: self.delay_ms as nat }
    }
}

/// What the owner of the platform timer has to do after an operation of the
/// scheduler.  There is one platform timer at most: arming a new one always
/// cancels the one before.
#[derive(Clone, Copy, Debug, PartialEq, Eq, Structural)]
pub enum Action {
    /// Leave the platform timer as it is.
    Keep,
    /// Cancel the platform timer, if one is armed, and arm none.
    Cancel,
    /// Cancel the platform timer, if one is armed, and arm this one.
    Arm(Timer),
}

impl View for Action {
    type V = ActionView;

    open spec fn view(&self) -> ActionView {
        match *self {
            Action::Keep => ActionView::Keep,
            Action::Cancel => ActionView::Cancel,
            Action::Arm(t) => ActionView::Arm(t@),
        }
    }
}

} // verus!
