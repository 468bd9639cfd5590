//! Messages that pages hand to the top-level router, and what handling an
//! event yields.

use crate::capture::Command;
use vstd::prelude::*;

verus! {

/// A request or notification produced while handling input.
#[derive(Debug, Clone, PartialEq)]
pub enum Action {
    Filter(String),
    Save(String),
    Clear,
    Tick,
    Quit,
    NavigateToHome,
    NavigateToDevice,
    NavigateToSniffer,
    DeviceSelected(String),
    ApplyFilter(String),
    Handled,
    PacketSelected(usize),
}

/// The mathematical content of an [`Action`]: texts as character sequences.
pub enum ActionView {
    Filter(Seq<char>),
    Save(Seq<char>),
    Clear,
    Tick,
    Quit,
    NavigateToHome,
    NavigateToDevice,
    NavigateToSniffer,
    DeviceSelected(Seq<char>),
    ApplyFilter(Seq<char>),
    Handled,
    PacketSelected(usize),
}

impl View for Action {
    type V = ActionView;

    open spec fn view(&self) -> ActionView {
        match self {
            Action::Filter(text) => ActionView::Filter(text@),
            Action::Save(text) => ActionView::Save(text@),
            Action::Clear => ActionView::Clear,
            Action::Tick => ActionView::Tick,
            Action::Quit => ActionView::Quit,
            Action::NavigateToHome => ActionView::NavigateToHome,
            Action::NavigateToDevice => ActionView::NavigateToDevice,
            Action::NavigateToSniffer => ActionView::NavigateToSniffer,
            Action::DeviceSelected(name) => ActionView::DeviceSelected(name@),
            Action::ApplyFilter(text) => ActionView::ApplyFilter(text@),
            Action::Handled => ActionView::Handled,
            Action::PacketSelected(index) => ActionView::PacketSelected(*index),
        }
    }
}

/// What handling an input event yields: a message for the router, and
/// something for the driver to do.
#[derive(Debug)]
pub struct Response {
    pub action: Option<Action>,
    pub command: Command,
}

/// The content of an optional action.
pub open spec fn reply_view(reply: Option<Action>) -> Option<ActionView> {
    match reply {
        Some(action) => Some(action@),
        None => None,
    }
}

} // verus!
