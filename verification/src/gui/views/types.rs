//! Types that the views share.

use vstd::prelude::*;
use crate::gui::views::modal::Modal;

verus! {

/// Where a modal window stands on the screen.
#[derive(Clone, Copy, Debug, PartialEq, Eq, Structural)]
pub enum ModalPosition {
    /// In the middle of the upper edge.
    CenterTop,
    /// In the middle of the screen.
    Center,
}

/// The modal window that is shown, if any, and whether each window that was
/// made can be closed.
pub struct ModalState {
    /// The window that is shown.
    pub modal: Option<Modal>,
    /// For each window that was made with this state, whether it can be
    /// closed. A window and all its copies look at the same entry.
    pub closeable: Vec<bool>,
}

impl ModalState {
    /// A state without a window.
    pub fn new() -> (state: ModalState)
        ensures
            state.modal is None,
            state.closeable@.len() == 0,
    {
        ModalState { modal: None, closeable: Vec::new() }
    }
}

impl Default for ModalState {
    fn default() -> (state: ModalState)
        ensures
            state.modal is None,
            state.closeable@.len() == 0,
    {
        ModalState::new()
    }
}

} // verus!
