//! The scheduler as a mathematical state machine.
//!
//! Counters are natural numbers and lists are sequences, so nothing here can
//! overflow.  The executable scheduler is specified by the transitions below.

use vstd::prelude::*;
use crate::interval::clamped;

verus! {

/// A pending one-shot timer: the token that names it and the delay it was
/// armed with, in milliseconds.
pub struct TimerView {
    pub token: nat,
    pub delay_ms: nat,
}

/// What the owner of the platform timer does after a transition.
pub enum ActionView {
    /// Leave the platform timer as it is.
    Keep,
    /// Cancel the platform timer, if one is armed, and arm none.
    Cancel,
    /// Cancel the platform timer, if one is armed, and arm this one.
    Arm(TimerView),
}

impl ActionView {
    /// The timer that the platform has armed after it performed this action,
    /// if `armed` was armed before.
    pub open spec fn apply(self, armed: Option<TimerView>) -> Option<TimerView> {
        match self {
            ActionView::Keep => armed,
            ActionView::Cancel => None,
            ActionView::Arm(t) => Some(t),
        }
    }
}

/// An input to the scheduler.
pub enum EventView<T> {
    /// The run button was clicked.
    RunClicked,
    /// Files were selected as the new image list.
    ImagesSelected(Seq<T>),
    /// A background was selected, or the background was cleared.
    BackgroundSelected(Option<T>),
    /// The speed control was moved to this many milliseconds.
    SpeedChanged(nat),
    /// The platform timer armed under this token has fired.
    TimerFired(nat),
}

/// The whole state of the scheduler.
pub struct State<T> {
    /// Whether playback is running.
    pub running: bool,
    /// An ever-growing counter; it becomes an index only modulo the length
    /// of the image list.
    pub position: nat,
    /// Display time of one image, in milliseconds.
    pub interval_ms: nat,
    /// The images, in display order.
    pub images: Seq<T>,
    /// The background image, if any.
    pub background: Option<T>,
    /// The timer that is armed, if any.
    pub pending: Option<TimerView>,
    /// The token that the next timer will be armed under.
    pub next_token: nat,
    /// Number of slots in the render window.
    pub window: nat,
    /// Fewest images for which the render window is shown.
    pub min_images: nat,
}

impl<T> State<T> {
    /// The state a scheduler starts in: stopped at position zero, with no
    /// images, no background and no timer.
    pub open spec fn init(window: nat, min_images: nat, interval_ms: nat) -> State<T> {
        State {
            running: false,
            position: 0,
            interval_ms: clamped(interval_ms),
            images: Seq::empty(),
            background: None,
            pending: None,
            next_token: 0,
            window,
            min_images,
        }
    }

    /// A timer has to be pending exactly when this holds.
    pub open spec fn wants_timer(self) -> bool {
        self.running && self.images.len() > 0
    }

    /// The scheduling invariant: a timer is pending if and only if playback
    /// is running over a non-empty list; a pending timer was armed with the
    /// current interval under a token that will not be issued again; and the
    /// interval is within its bounds.
    pub open spec fn inv(self) -> bool {
        &&& self.pending is Some <==> self.wants_timer()
        &&& self.pending matches Some(t) ==> t.delay_ms == self.interval_ms && t.token < self.next_token
        &&& self.interval_ms == clamped(self.interval_ms)
    }

    /// The recomputation step: whatever timer was pending is dropped, and a
    /// new one is armed under a fresh token when playback is running over a
    /// non-empty list.
    pub open spec fn recompute(self) -> State<T> {
        if self.wants_timer() {
            State {
                pending: Some(TimerView { token: self.next_token, delay_ms: self.interval_ms }),
                next_token: self.next_token + 1,
                ..self
            }
        } else {
            State { pending: None, ..self }
        }
    }

    /// What the owner of the platform timer does after a recomputation that
    /// led to this state.
    pub open spec fn command(self) -> ActionView {
        match self.pending {
            Some(t) => ActionView::Arm(t),
            None => ActionView::Cancel,
        }
    }

    /// Starts playback with a step forward, or stops it where it is.
    pub open spec fn toggle_run(self) -> State<T> {
        if self.running {
            State { running: false, ..self }.recompute()
        } else {
            State { running: true, position: self.position + 1, ..self }.recompute()
        }
    }

    /// Replaces the image list and leaves the position alone.
    pub open spec fn set_images(self, list: Seq<T>) -> State<T> {
        State { images: list, ..self }.recompute()
    }

    /// Replaces the background; scheduling is not touched.
    pub open spec fn set_background(self, background: Option<T>) -> State<T> {
        State { background, ..self }
    }

    /// Replaces the interval by `ms` brought into bounds and steps forward.
    pub open spec fn set_interval(self, ms: nat) -> State<T> {
        State { interval_ms: clamped(ms), position: self.position + 1, ..self }.recompute()
    }

    /// Whether `token` names the timer that is pending.
    pub open spec fn is_pending(self, token: nat) -> bool {
        self.pending matches Some(t) && t.token == token
    }

    /// A timer fired.  The pending one advances the position; any other is
    /// stale and changes nothing.
    pub open spec fn timer_fired(self, token: nat) -> State<T> {
        if self.is_pending(token) {
            State { position: self.position + 1, ..self }.recompute()
        } else {
            self
        }
    }

    /// The state after one event.  An empty selection of images keeps the
    /// list that is there.
    pub open spec fn step(self, event: EventView<T>) -> State<T> {
        match event {
            EventView::RunClicked => self.toggle_run(),
            EventView::ImagesSelected(list) => if list.len() == 0 {
                self
            } else {
                self.set_images(list)
            },
            EventView::BackgroundSelected(background) => self.set_background(background),
            EventView::SpeedChanged(ms) => self.set_interval(ms),
            EventView::TimerFired(token) => self.timer_fired(token),
        }
    }

    /// What the owner of the platform timer does after one event.
    pub open spec fn step_action(self, event: EventView<T>) -> ActionView {
        match event {
            EventView::RunClicked => self.toggle_run().command(),
            EventView::ImagesSelected(list) => if list.len() == 0 {
                ActionView::Keep
            } else {
                self.set_images(list).command()
            },
            EventView::BackgroundSelected(_) => ActionView::Keep,
            EventView::SpeedChanged(ms) => self.set_interval(ms).command(),
            EventView::TimerFired(token) => if self.is_pending(token) {
                self.timer_fired(token).command()
            } else {
                ActionView::Keep
            },
        }
    }

    /// The state after a sequence of events, first to last.
    pub open spec fn run(self, events: Seq<EventView<T>>) -> State<T>
        decreases events.len(),
    {
        if events.len() == 0 {
            self
        } else {
            self.run(events.drop_last()).step(events.last())
        }
    }

    /// The timer that the platform has armed after a sequence of events, if
    /// it had `armed` armed before and performed the action of every event.
    pub open spec fn platform_after(
        self,
        armed: Option<TimerView>,
        events: Seq<EventView<T>>,
    ) -> Option<TimerView>
        decreases events.len(),
    {
        if events.len() == 0 {
            armed
        } else {
            self.run(events.drop_last()).step_action(events.last()).apply(
                self.platform_after(armed, events.drop_last()),
            )
        }
    }

    /// Whether there are images enough to show the render window.
    pub open spec fn displayable(self) -> bool {
        self.images.len() > 0 && self.images.len() >= self.min_images
    }

    /// The image in slot `i` of the render window, counted cyclically from
    /// the position.
    pub open spec fn slot(self, i: int) -> T
        recommends
            self.images.len() > 0,
            0 <= i,
    {
        self.images[(self.position + i) % (self.images.len() as int)]
    }
}

} // verus!
