//! The section of a wallet's settings that repairs the wallet, shows its
//! recovery phrase and deletes it.

use vstd::prelude::*;
use grin_util::ZeroingString;
use crate::gui::views::input::same_text;
use crate::gui::views::modal::{spec_flags_with, Modal};
use crate::gui::views::types::{ModalPosition, ModalState};

verus! {

/// The identifier of the window that shows the recovery phrase.
pub const RECOVERY_PHRASE_MODAL: &'static str = "recovery_phrase_modal";

/// The identifier of the window that asks before a wallet is deleted.
pub const DELETE_CONFIRMATION_MODAL: &'static str = "delete_wallet_confirmation_modal";

/// What the recovery section of a wallet holds.
pub struct RecoverySetup {
    /// The password as it was typed.
    pub pass_edit: String,
    /// The password that was typed last is wrong.
    pub wrong_pass: bool,
    /// The password is shown as dots.
    pub hide_pass: bool,
    /// The recovery phrase, once the password has unlocked it.
    pub recovery_phrase: Option<ZeroingString>,
}

/// Whether the wallet can be repaired.
#[derive(Clone, Copy, Debug, PartialEq, Eq, Structural)]
pub enum RepairState {
    /// The wallet is out of step with its node, or its node is not ready.
    Unavailable,
    /// A repair can be started.
    Offered,
    /// A repair is under way.
    Running,
}

/// What the window for the recovery phrase says under the password.
#[derive(Clone, Copy, Debug, PartialEq, Eq, Structural)]
pub enum PassHint {
    /// No password was typed.
    Empty,
    /// The password that was typed is wrong.
    Wrong,
    /// Nothing is to be said.
    Nothing,
}

/// A window of the recovery section.
#[derive(Clone, Copy, Debug, PartialEq, Eq, Structural)]
pub enum RecoveryModal {
    /// The window that shows the recovery phrase.
    Phrase,
    /// The window that asks before the wallet is deleted.
    Deletion,
}

impl Default for RecoverySetup {
    fn default() -> (setup: RecoverySetup)
        ensures
            setup.pass_edit@.len() == 0,
            !setup.wrong_pass,
            !setup.hide_pass,
            setup.recovery_phrase is None,
    {
        RecoverySetup {
            wrong_pass: false,
            hide_pass: false,
            pass_edit: String::new(),
            recovery_phrase: None,
        }
    }
}

impl RecoverySetup {
    /// Whether the wallet can be repaired: not while it is out of step with
    /// its node, nor while it uses the integrated node and that node is not
    /// ready; otherwise a repair is offered unless one is under way.
    pub open spec fn spec_repair_state(
        sync_error: bool,
        integrated_node: bool,
        integrated_node_ready: bool,
        repairing: bool,
    ) -> RepairState {
        if sync_error || (integrated_node && !integrated_node_ready) {
            RepairState::Unavailable
        } else if !repairing {
            RepairState::Offered
        } else {
            RepairState::Running
        }
    }

    /// Whether the wallet can be repaired.
    pub fn repair_state(
        sync_error: bool,
        integrated_node: bool,
        integrated_node_ready: bool,
        repairing: bool,
    ) -> (repair: RepairState)
        ensures
            repair == Self::spec_repair_state(
                sync_error,
                integrated_node,
                integrated_node_ready,
                repairing,
            ),
    {
        if sync_error || (integrated_node && !integrated_node_ready) {
            RepairState::Unavailable
        } else if !repairing {
            RepairState::Offered
        } else {
            RepairState::Running
        }
    }

    /// The window of this section that `opened` names, if it names one.
    pub open spec fn spec_modal_content(opened: Option<&'static str>) -> Option<RecoveryModal> {
        match opened {
            Some(id) => if id@ == RECOVERY_PHRASE_MODAL@ {
                Some(RecoveryModal::Phrase)
            } else if id@ == DELETE_CONFIRMATION_MODAL@ {
                Some(RecoveryModal::Deletion)
            } else {
                None
            },
            None => None,
        }
    }

    /// The window of this section that is to be drawn, where `opened` is the
    /// identifier of the window that is shown.
    pub fn modal_content(opened: Option<&'static str>) -> (content: Option<RecoveryModal>)
        ensures
            content == Self::spec_modal_content(opened),
    {
        match opened {
            Some(id) => {
                if same_text(id, RECOVERY_PHRASE_MODAL) {
                    Some(RecoveryModal::Phrase)
                } else if same_text(id, DELETE_CONFIRMATION_MODAL) {
                    Some(RecoveryModal::Deletion)
                } else {
                    None
                }
            },
            None => None,
        }
    }

    /// Opens the window for the recovery phrase: no password is typed, none
    /// is wrong, the password is hidden and the phrase is locked.
    pub fn show_recovery_phrase_modal(&mut self, state: &mut ModalState, title: String)
        ensures
            final(self).pass_edit@.len() == 0,
            !final(self).wrong_pass,
            final(self).hide_pass,
            final(self).recovery_phrase is None,
            Modal::shows_new(
                *final(state),
                *old(state),
                RECOVERY_PHRASE_MODAL,
                ModalPosition::CenterTop,
                title@,
            ),
    {
        self.pass_edit = String::new();
        self.wrong_pass = false;
        self.hide_pass = true;
        self.recovery_phrase = None;
        Modal::open(state, RECOVERY_PHRASE_MODAL, ModalPosition::CenterTop, title);
    }

    /// Opens the window that asks before the wallet is deleted.
    pub fn show_deletion_modal(state: &mut ModalState, title: String)
        ensures
            Modal::shows_new(
                *final(state),
                *old(state),
                DELETE_CONFIRMATION_MODAL,
                ModalPosition::Center,
                title@,
            ),
    {
        Modal::open(state, DELETE_CONFIRMATION_MODAL, ModalPosition::Center, title);
    }

    /// Shows the password if it is hidden, and hides it if it is shown.
    pub fn toggle_pass(&mut self)
        ensures
            final(self).hide_pass == !old(self).hide_pass,
            final(self).pass_edit == old(self).pass_edit,
            final(self).wrong_pass == old(self).wrong_pass,
            final(self).recovery_phrase == old(self).recovery_phrase,
    {
        self.hide_pass = !self.hide_pass;
    }

    /// What the window says under the password: that none was typed, or else
    /// that the one that was typed is wrong, if it is.
    pub open spec fn spec_pass_hint(self) -> PassHint {
        if self.pass_edit@.len() == 0 {
            PassHint::Empty
        } else if self.wrong_pass {
            PassHint::Wrong
        } else {
            PassHint::Nothing
        }
    }

    /// What the window says under the password.
    pub fn pass_hint(&self) -> (hint: PassHint)
        ensures
            hint == self.spec_pass_hint(),
    {
        if self.pass_edit.as_str().is_empty() {
            PassHint::Empty
        } else if self.wrong_pass {
            PassHint::Wrong
        } else {
            PassHint::Nothing
        }
    }

    /// Takes what the wallet made of the password: the phrase, which is then
    /// shown, or a refusal, after which the password counts as wrong. The
    /// result is `true` where the keyboard is no longer needed.
    pub fn on_recovery(&mut self, recovered: Result<ZeroingString, String>) -> (unlocked: bool)
        ensures
            unlocked == recovered is Ok,
            final(self).pass_edit == old(self).pass_edit,
            final(self).hide_pass == old(self).hide_pass,
            match recovered {
                Ok(phrase) => !final(self).wrong_pass && final(self).recovery_phrase == Some(
                    phrase,
                ),
                Err(_) => final(self).wrong_pass && final(self).recovery_phrase == old(
                    self,
                ).recovery_phrase,
            },
    {
        match recovered {
            Ok(phrase) => {
                self.wrong_pass = false;
                self.recovery_phrase = Some(phrase);
                true
            },
            Err(_) => {
                self.wrong_pass = true;
                false
            },
        }
    }

    /// Locks the phrase again and takes the window off the screen.
    pub fn close_recovery_phrase(&mut self, state: &mut ModalState)
        ensures
            final(self).recovery_phrase is None,
            final(self).pass_edit == old(self).pass_edit,
            final(self).wrong_pass == old(self).wrong_pass,
            final(self).hide_pass == old(self).hide_pass,
            final(state).modal is None,
            final(state).closeable == old(state).closeable,
    {
        self.recovery_phrase = None;
        state.modal = None;
    }

    /// Keeps the window that is shown on the screen while the wallet is
    /// deleted: from now on it cannot be closed, nor can any copy of it.
    pub fn on_delete(state: &mut ModalState)
        ensures
            final(state).modal == old(state).modal,
            match old(state).modal {
                Some(modal) => final(state).closeable@ == spec_flags_with(
                    old(state).closeable@,
                    modal.spec_flag() as int,
                    false,
                ),
                None => final(state).closeable == old(state).closeable,
            },
    {
        Modal::disable_closing_of_shown(state);
    }
}

} // verus!
