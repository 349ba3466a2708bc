//! The executable scheduler.

use vstd::prelude::*;
use crate::event::Event;
use crate::interval::{clamp_interval, clamped, MAX_INTERVAL_MS, MIN_INTERVAL_MS};
use crate::model::{EventView, State};
use crate::timer::{Action, Timer};

verus! {

/// What a scheduler is made with.
#[derive(Clone, Copy, Debug, PartialEq, Eq, Structural)]
pub struct Config {
    /// Number of slots in the render window.
    pub window: usize,
    /// Fewest images for which the render window is shown; with fewer, the
    /// renderer shows its placeholder.
    pub min_images: usize,
    /// Display time of one image, in milliseconds.  It is brought into the
    /// bounds of the interval.
    pub interval_ms: u32,
}

/// Whether the two counters of a state fit the 64 bits that the scheduler
/// keeps each of them in.  An operation asks this of the state it leads to,
/// and of nothing else.
pub open spec fn representable<T>(s: State<T>) -> bool {
    s.position <= u64::MAX && s.next_token <= u64::MAX
}

/// The part of the state that changes in one piece whenever the timer is
/// dropped and armed again.
#[derive(Clone, Copy, Debug)]
struct Schedule {
    running: bool,
    interval_ms: u32,
    pending: Option<Timer>,
    next_token: u64,
}

impl Schedule {
    /// This schedule after a recomputation over a list that is empty or not.
    fn rearmed(self, nonempty: bool) -> (s: Schedule)
        requires
            self.running && nonempty ==> self.next_token < u64::MAX,
        ensures
            s.running == self.running,
            s.interval_ms == self.interval_ms,
            self.running && nonempty ==> s.pending == Some(
                Timer { token: self.next_token, delay_ms: self.interval_ms },
            ),
            self.running && nonempty ==> s.next_token == self.next_token + 1,
            !(self.running && nonempty) ==> s.pending is None,
            !(self.running && nonempty) ==> s.next_token == self.next_token,
    {
        if self.running && nonempty {
            Schedule {
                pending: Some(Timer { token: self.next_token, delay_ms: self.interval_ms }),
                next_token: self.next_token + 1,
                ..self
            }
        } else {
            Schedule { pending: None, ..self }
        }
    }
}

/// The playback scheduler of a carousel over image references of type `T`.
///
/// Its view is a [`State`], and every value of this type meets
/// [`State::inv`]: a timer is pending exactly while playback runs over a
/// non-empty list.
#[derive(Debug)]
pub struct Carousel<T> {
    images: Vec<T>,
    background: Option<T>,
    position: u64,
    schedule: Schedule,
    window: usize,
    min_images: usize,
}

impl<T> View for Carousel<T> {
    type V = State<T>;

    closed spec fn view(&self) -> State<T> {
        State {
            running: self.schedule.running,
            position: self.position as nat,
            interval_ms: self.schedule.interval_ms as nat,
            images: self.images@,
            background: self.background,
            pending: match self.schedule.pending {
                Some(t) => Some(t@),
                None => None,
            },
            next_token: self.schedule.next_token as nat,
            window: self.window as nat,
            min_images: self.min_images as nat,
        }
    }
}

impl<T> Carousel<T> {
    #[verifier::type_invariant]
    spec fn well_formed(&self) -> bool {
        self@.inv()
    }

    /// Whether both counters can still grow by one.  No operation makes a
    /// counter grow by more, so there is room for any one of them.
    pub open spec fn spec_has_headroom(&self) -> bool {
        self@.position < u64::MAX && self@.next_token < u64::MAX
    }

    /// A scheduler in its initial state: stopped at position zero, with no
    /// images, no background and no timer.
    pub fn new(config: Config) -> (c: Carousel<T>)
        ensures
            c@ == State::<T>::init(
                config.window as nat,
                config.min_images as nat,
                config.interval_ms as nat,
            ),
            c@.inv(),
            representable(c@),
            c.has_headroom(),
    {
        Carousel {
            images: Vec::new(),
            background: None,
            position: 0,
            schedule: Schedule {
                running: false,
                interval_ms: clamp_interval(config.interval_ms),
                pending: None,
                next_token: 0,
            },
            window: config.window,
            min_images: config.min_images,
        }
    }

    /// Whether both counters can still grow by one.  Where this holds, the
    /// state after any one operation is representable.  A counter of 64 bits
    /// does not run out in practice.
    #[verifier::when_used_as_spec(spec_has_headroom)]
    pub fn has_headroom(&self) -> (r: bool)
        ensures
            r == self.spec_has_headroom(),
            r ==> forall|event: EventView<T>| representable(#[trigger] self@.step(event)),
            r ==> representable(self@.recompute()),
            representable(self@),
    {
        self.position < u64::MAX && self.schedule.next_token < u64::MAX
    }

    /// The action that tells the platform of the pending timer.
    fn command(&self) -> (action: Action)
        ensures
            action@ == self@.command(),
    {
        match self.schedule.pending {
            Some(t) => Action::Arm(t),
            None => Action::Cancel,
        }
    }

    /// The recomputation step.  Whatever timer was pending is dropped; if
    /// playback is running over a non-empty list, a new timer is armed for
    /// the current interval, else none is.  The action says which.
    pub fn recompute(&mut self) -> (action: Action)
        requires
            representable(old(self)@.recompute()),
        ensures
            final(self)@ == old(self)@.recompute(),
            final(self)@.inv(),
            representable(final(self)@),
            action@ == final(self)@.command(),
    {
        proof {
            use_type_invariant(&*self);
        }
        let nonempty = self.images.len() > 0;
        self.schedule = self.schedule.rearmed(nonempty);
        self.command()
    }

    /// The run button.  From stopped, playback starts with one step forward,
    /// so that a click always shows movement.  From running, playback stops
    /// where it is and the pending timer is cancelled.
    pub fn toggle_run(&mut self) -> (action: Action)
        requires
            representable(old(self)@.toggle_run()),
        ensures
            final(self)@ == old(self)@.toggle_run(),
            final(self)@.inv(),
            representable(final(self)@),
            action@ == final(self)@.command(),
            final(self)@.running == !old(self)@.running,
            !old(self)@.running ==> final(self)@.position == old(self)@.position + 1,
            old(self)@.running ==> final(self)@.position == old(self)@.position,
            old(self)@.running ==> final(self)@.pending is None && action == Action::Cancel,
    {
        proof {
            use_type_invariant(&*self);
        }
        let nonempty = self.images.len() > 0;
        let schedule = self.schedule;
        if schedule.running {
            self.schedule = Schedule { running: false, ..schedule }.rearmed(nonempty);
        } else {
            self.position = self.position + 1;
            self.schedule = Schedule { running: true, ..schedule }.rearmed(nonempty);
        }
        self.command()
    }

    /// Replaces the image list, which may be empty.  The position is left
    /// alone: it is read modulo the new length from now on.  The timer is
    /// dropped and armed again as the new list asks.
    pub fn set_images(&mut self, list: Vec<T>) -> (action: Action)
        requires
            representable(old(self)@.set_images(list@)),
        ensures
            final(self)@ == old(self)@.set_images(list@),
            final(self)@.inv(),
            representable(final(self)@),
            action@ == final(self)@.command(),
            final(self)@.images == list@,
            final(self)@.position == old(self)@.position,
    {
        proof {
            use_type_invariant(&*self);
        }
        let nonempty = list.len() > 0;
        let schedule = self.schedule;
        // No timer may be pending over an empty list, not even for a moment:
        // playback is held while the lists are exchanged.
        self.schedule = Schedule { running: false, pending: None, ..schedule };
        self.images = list;
        self.schedule = schedule.rearmed(nonempty);
        self.command()
    }

    /// Replaces the background, or clears it with `None`.  Scheduling is not
    /// touched, so there is nothing for the platform timer to do.
    pub fn set_background(&mut self, background: Option<T>)
        ensures
            final(self)@ == old(self)@.set_background(background),
            final(self)@.inv(),
            representable(final(self)@),
    {
        proof {
            use_type_invariant(&*self);
        }
        self.background = background;
    }

    /// The speed control.  The interval becomes `ms` brought into its
    /// bounds, and the position steps forward.  A timer that was pending on
    /// the old interval is dropped, and the new one is armed with the new
    /// interval.
    pub fn set_interval(&mut self, ms: u32) -> (action: Action)
        requires
            representable(old(self)@.set_interval(ms as nat)),
        ensures
            final(self)@ == old(self)@.set_interval(ms as nat),
            final(self)@.inv(),
            representable(final(self)@),
            action@ == final(self)@.command(),
            final(self)@.interval_ms == clamped(ms as nat),
            final(self)@.position == old(self)@.position + 1,
    {
        proof {
            use_type_invariant(&*self);
        }
        let nonempty = self.images.len() > 0;
        let schedule = self.schedule;
        self.position = self.position + 1;
        self.schedule = Schedule { interval_ms: clamp_interval(ms), ..schedule }.rearmed(nonempty);
        self.command()
    }

    /// The platform timer armed under `token` has fired.  If that is the
    /// pending timer, the position steps forward and the next timer is
    /// armed.  A token of any other timer is stale: nothing changes and the
    /// platform timer is kept.
    pub fn timer_fired(&mut self, token: u64) -> (action: Action)
        requires
            representable(old(self)@.timer_fired(token as nat)),
        ensures
            final(self)@ == old(self)@.timer_fired(token as nat),
            final(self)@.inv(),
            representable(final(self)@),
            action@ == old(self)@.step_action(EventView::TimerFired(token as nat)),
            old(self)@.is_pending(token as nat) ==> final(self)@.position == old(self)@.position + 1,
            old(self)@.is_pending(token as nat) ==> action@ == final(self)@.command(),
            !old(self)@.is_pending(token as nat) ==> final(self)@ == old(self)@,
            !old(self)@.is_pending(token as nat) ==> action == Action::Keep,
    {
        proof {
            use_type_invariant(&*self);
        }
        let schedule = self.schedule;
        let due = match schedule.pending {
            Some(t) => t.token == token,
            None => false,
        };
        if due {
            let nonempty = self.images.len() > 0;
            self.position = self.position + 1;
            self.schedule = schedule.rearmed(nonempty);
            self.command()
        } else {
            Action::Keep
        }
    }

    /// Takes one event from a collaborator.  A click, a speed change and a
    /// firing timer go to their operations.  A selection of images replaces
    /// the list, but an empty selection keeps the list that is there and
    /// leaves the timer alone.
    pub fn handle(&mut self, event: Event<T>) -> (action: Action)
        requires
            representable(old(self)@.step(event@)),
        ensures
            final(self)@ == old(self)@.step(event@),
            final(self)@.inv(),
            representable(final(self)@),
            action@ == old(self)@.step_action(event@),
    {
        proof {
            use_type_invariant(&*self);
        }
        match event {
            Event::RunClicked => self.toggle_run(),
            Event::ImagesSelected(list) => {
                if list.len() == 0 {
                    Action::Keep
                } else {
                    self.set_images(list)
                }
            },
            Event::BackgroundSelected(background) => {
                self.set_background(background);
                Action::Keep
            },
            Event::SpeedChanged(ms) => self.set_interval(ms),
            Event::TimerFired(token) => self.timer_fired(token),
        }
    }

    /// The render window: `None` while there are too few images to show,
    /// which is where the renderer draws its placeholder; else the images of
    /// the slots in order, slot `i` showing the image at index
    /// `(position + i) mod length` of the list.
    pub fn render_window(&self) -> (r: Option<Vec<&T>>)
        ensures
            r is Some <==> self@.displayable(),
            r matches Some(w) ==> w@.len() == self@.window,
            r matches Some(w) ==> forall|i: int|
                0 <= i < w@.len() ==> *w@[i] == self@.images[(self@.position + i) % (
                self@.images.len() as int)],
            r matches Some(w) ==> forall|i: int|
                0 <= i < w@.len() ==> *w@[i] == #[trigger] self@.slot(i),
    {
        let n: usize = self.images.len();
        if n == 0 || n < self.min_images {
            return None;
        }
        let mut slots: Vec<&T> = Vec::new();
        let mut i: usize = 0;
        while i < self.window
            invariant
                n == self.images.len(),
                n > 0,
                i <= self.window,
                slots@.len() == i,
                forall|j: int|
                    0 <= j < i ==> *slots@[j] == self.images@[(self.position + j) % (n as int)],
            decreases self.window - i,
        {
            let index: usize = ((self.position as u128 + i as u128) % (n as u128)) as usize;
            slots.push(&self.images[index]);
            i = i + 1;
        }
        Some(slots)
    }

    /// Whether playback is running.
    pub fn is_running(&self) -> (r: bool)
        ensures
            r == self@.running,
    {
        self.schedule.running
    }

    /// The position: a counter that only ever grows.
    pub fn position(&self) -> (r: u64)
        ensures
            r == self@.position,
    {
        self.position
    }

    /// Display time of one image, in milliseconds.
    pub fn interval_ms(&self) -> (r: u32)
        ensures
            r == self@.interval_ms,
            MIN_INTERVAL_MS <= r <= MAX_INTERVAL_MS,
    {
        proof {
            use_type_invariant(self);
        }
        self.schedule.interval_ms
    }

    /// The images, in display order.
    pub fn images(&self) -> (r: &Vec<T>)
        ensures
            r@ == self@.images,
    {
        &self.images
    }

    /// The background image, if any.
    pub fn background(&self) -> (r: Option<&T>)
        ensures
            r is Some <==> self@.background is Some,
            r matches Some(b) ==> self@.background == Some(*b),
    {
        self.background.as_ref()
    }

    /// The timer that is pending, if any.  One is pending exactly while
    /// playback is running over a non-empty list, and it was armed with the
    /// current interval.
    pub fn pending_timer(&self) -> (r: Option<Timer>)
        ensures
            r is Some <==> self@.pending is Some,
            r matches Some(t) ==> self@.pending == Some(t@) && t.delay_ms == self@.interval_ms,
            r is Some <==> self@.running && self@.images.len() > 0,
            self@.inv(),
            representable(self@),
    {
        proof {
            use_type_invariant(self);
        }
        self.schedule.pending
    }

    /// Number of slots in the render window.
    pub fn window(&self) -> (r: usize)
        ensures
            r == self@.window,
    {
        self.window
    }

    /// Fewest images for which the render window is shown.
    pub fn min_images(&self) -> (r: usize)
        ensures
            r == self@.min_images,
    {
        self.min_images
    }
}

} // verus!
