//! Input encoding and lifecycle rules of a USB keyboard, mouse and display gadget.

use vstd::prelude::*;

pub mod display;
pub mod gadget;
pub mod handshake;
pub mod hid;
pub mod keyboard;
pub mod lifecycle;
pub mod mouse;
pub mod rollover;
pub mod session;

verus! {

/// What the foreground event loop is woken up for.
#[derive(Clone, Debug, PartialEq, Eq)]
pub enum AppEvent {
    DisplayFrameArrived,
    Gadget(gadget::GadgetEvent),
}

/// What an `AppEvent` says, over sequences.
pub enum AppEventView {
    DisplayFrameArrived,
    Gadget(gadget::GadgetEventView),
}

impl View for AppEvent {
    type V = AppEventView;

    open spec fn view(&self) -> AppEventView {
        match *self {
            AppEvent::DisplayFrameArrived => AppEventView::DisplayFrameArrived,
            AppEvent::Gadget(event) => AppEventView::Gadget(event@),
        }
    }
}

} // verus!
