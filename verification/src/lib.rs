//! Playback scheduler for an image carousel.
//!
//! The scheduler is a state machine.  It owns the playback state (running or
//! stopped, position, tick interval, image list, background) and keeps a
//! record of the one timer that may be pending.  It never touches a clock:
//! every operation returns the [`Action`] that the owner of the platform
//! timer has to perform, and a firing timer is handed back as an event.
//!
//! The owner of the platform timer runs the loop.  It hands each input to
//! [`Carousel::handle`], or calls the operation itself, and performs the
//! action that comes back: keep the platform timer, cancel it, or cancel it
//! and arm a new one.  When the platform timer fires, the token it was armed
//! under goes back in as [`Event::TimerFired`].
//!
//! * [`model`] is the mathematical state machine that the contracts speak of.
//! * [`scheduler`] is the executable scheduler, a refinement of the model.
//! * [`laws`] holds what is proved of the model as a whole.

pub mod interval;
pub mod model;
pub mod timer;
pub mod event;
pub mod scheduler;
pub mod laws;

pub use crate::event::Event;
pub use crate::interval::{clamp_interval, MAX_INTERVAL_MS, MIN_INTERVAL_MS};
pub use crate::scheduler::{Carousel, Config};
pub use crate::timer::{Action, Timer};
