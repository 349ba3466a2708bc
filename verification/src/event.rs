//! The inputs that collaborators send to the scheduler.

use vstd::prelude::*;
use crate::model::EventView;

verus! {

/// An input to the scheduler.  `T` is the type of an image reference, which
/// the scheduler stores and hands out but never looks into.
#[derive(Debug)]
pub enum Event<T> {
    /// The run button was clicked.
    RunClicked,
    /// Files were selected as the new image list, in display order.
    ImagesSelected(Vec<T>),
    /// A background was selected (`Some`), or the background was cleared
    /// (`None`).
    BackgroundSelected(Option<T>),
    /// The speed control was moved to this many milliseconds.
    SpeedChanged(u32),
    /// The platform timer armed under this token has fired.
    TimerFired(u64),
}

impl<T> View for Event<T> {
    type V = EventView<T>;

    open spec fn view(&self) -> EventView<T> {
        match *self {
            Event::RunClicked => EventView::RunClicked,
            Event::ImagesSelected(list) => EventView::ImagesSelected(list@),
            Event::BackgroundSelected(background) => EventView::BackgroundSelected(background),
            Event::SpeedChanged(ms) => EventView::SpeedChanged(ms as nat),
            Event::TimerFired(token) => EventView::TimerFired(token as nat),
        }
    }
}

} // verus!
