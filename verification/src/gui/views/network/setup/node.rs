//! The general settings of the integrated node.

use vstd::prelude::*;
use crate::gui::views::input::{parse_unsigned, same_text, spec_parse_unsigned};
use crate::gui::views::modal::Modal;
use crate::gui::views::types::{ModalPosition, ModalState};

verus! {

/// The identifier of the window for the port of the API.
pub const API_PORT_MODAL: &'static str = "api_port";

/// The identifier of the window for the secret of the API.
pub const API_SECRET_MODAL: &'static str = "api_secret";

/// The identifier of the window for the secret of the foreign API.
pub const FOREIGN_API_SECRET_MODAL: &'static str = "foreign_api_secret";

/// The identifier of the window for the future time limit.
pub const FTL_MODAL: &'static str = "ftl";

/// A window of the section with the general settings of the node.
#[derive(Clone, Copy, Debug, PartialEq, Eq, Structural)]
pub enum NodeModal {
    /// The window for the port of the API.
    ApiPort,
    /// The window for the secret of the API.
    ApiSecret,
    /// The window for the secret of the foreign API.
    ForeignApiSecret,
    /// The window for the future time limit.
    Ftl,
}

/// What a choice of the chain type leads to.
#[derive(Clone, Copy, Debug, PartialEq, Eq, Structural)]
pub enum ChainTypeChange {
    /// Nothing changes.
    Keep,
    /// The chain type is saved and the settings of the node for it are loaded.
    Change,
    /// The same, and the node, which runs, starts again.
    ChangeAndRestart,
}

/// What the section with the general settings of the node holds.
pub struct NodeSetup {
    /// The IP addresses of this machine.
    pub available_ips: Vec<String>,
    /// The port of the API as it was typed.
    pub api_port_edit: String,
    /// The port that was typed is free.
    pub api_port_available_edit: bool,
    /// The port in the saved settings is free.
    pub is_api_port_available: bool,
    /// The secret as it was typed.
    pub secret_edit: String,
    /// The future time limit as it was typed.
    pub ftl_edit: String,
}

impl NodeSetup {
    /// The section for a node with these addresses, this port and this
    /// future time limit: the port that is typed starts as the saved one, and
    /// no secret is typed.
    pub fn new(
        available_ips: Vec<String>,
        api_port: String,
        is_api_port_available: bool,
        ftl: String,
    ) -> (setup: NodeSetup)
        ensures
            setup.available_ips == available_ips,
            setup.api_port_edit == api_port,
            setup.api_port_available_edit == is_api_port_available,
            setup.is_api_port_available == is_api_port_available,
            setup.secret_edit@.len() == 0,
            setup.ftl_edit == ftl,
    {
        NodeSetup {
            available_ips,
            api_port_edit: api_port,
            api_port_available_edit: is_api_port_available,
            is_api_port_available,
            secret_edit: String::new(),
            ftl_edit: ftl,
        }
    }

    /// What the choice of a chain type leads to: nothing where it is the saved
    /// one or the node is on its way to start again; otherwise the chain type
    /// changes, and a node that runs starts again.
    pub open spec fn spec_chain_type_change(differs: bool, restarting: bool, running: bool)
        -> ChainTypeChange {
        if differs && !restarting {
            if running {
                ChainTypeChange::ChangeAndRestart
            } else {
                ChainTypeChange::Change
            }
        } else {
            ChainTypeChange::Keep
        }
    }

    /// What the choice of a chain type leads to, where `differs` says that it
    /// is not the saved one.
    pub fn chain_type_change(differs: bool, restarting: bool, running: bool) -> (change:
        ChainTypeChange)
        ensures
            change == Self::spec_chain_type_change(differs, restarting, running),
    {
        if differs && !restarting {
            if running {
                ChainTypeChange::ChangeAndRestart
            } else {
                ChainTypeChange::Change
            }
        } else {
            ChainTypeChange::Keep
        }
    }

    /// The window of this section that `id` names, if it names one.
    pub open spec fn spec_modal_content(id: Seq<char>) -> Option<NodeModal> {
        if id == API_PORT_MODAL@ {
            Some(NodeModal::ApiPort)
        } else if id == API_SECRET_MODAL@ {
            Some(NodeModal::ApiSecret)
        } else if id == FOREIGN_API_SECRET_MODAL@ {
            Some(NodeModal::ForeignApiSecret)
        } else if id == FTL_MODAL@ {
            Some(NodeModal::Ftl)
        } else {
            None
        }
    }

    /// The window of this section that is to be drawn for the window `id`
    /// that is shown.
    pub fn modal_content(id: &str) -> (content: Option<NodeModal>)
        ensures
            content == Self::spec_modal_content(id@),
    {
        if same_text(id, API_PORT_MODAL) {
            Some(NodeModal::ApiPort)
        } else if same_text(id, API_SECRET_MODAL) {
            Some(NodeModal::ApiSecret)
        } else if same_text(id, FOREIGN_API_SECRET_MODAL) {
            Some(NodeModal::ForeignApiSecret)
        } else if same_text(id, FTL_MODAL) {
            Some(NodeModal::Ftl)
        } else {
            None
        }
    }

    /// Whether the secret that is typed in the window `id` is that of the
    /// foreign API: it is that of the API in the window of the API's secret,
    /// and that of the foreign API in any other.
    pub fn secret_is_foreign(id: &str) -> (foreign: bool)
        ensures
            foreign == (id@ != API_SECRET_MODAL@),
    {
        !same_text(id, API_SECRET_MODAL)
    }

    /// The identifiers of the windows of this section.
    pub fn modal_ids(&self) -> (ids: Vec<&'static str>)
        ensures
            ids@ == seq![API_PORT_MODAL, API_SECRET_MODAL, FOREIGN_API_SECRET_MODAL, FTL_MODAL],
    {
        vec![API_PORT_MODAL, API_SECRET_MODAL, FOREIGN_API_SECRET_MODAL, FTL_MODAL]
    }

    /// Opens the window for the port of the API: the port that is typed
    /// starts as `port`, the saved one, and counts as free if the saved one
    /// is.
    pub fn begin_api_port_edit(&mut self, state: &mut ModalState, port: String, title: String)
        ensures
            final(self).api_port_edit == port,
            final(self).api_port_available_edit == old(self).is_api_port_available,
            final(self).is_api_port_available == old(self).is_api_port_available,
            final(self).available_ips == old(self).available_ips,
            final(self).secret_edit == old(self).secret_edit,
            final(self).ftl_edit == old(self).ftl_edit,
            Modal::shows_new(
                *final(state),
                *old(state),
                API_PORT_MODAL,
                ModalPosition::CenterTop,
                title@,
            ),
    {
        self.api_port_edit = port;
        self.api_port_available_edit = self.is_api_port_available;
        Modal::open(state, API_PORT_MODAL, ModalPosition::CenterTop, title);
    }

    /// Takes note of whether the port that was typed is free. A free port is
    /// to be saved: the result is `true`, the saved port counts as free and
    /// the window leaves the screen. A port that is taken changes nothing
    /// else.
    pub fn on_api_port_checked(&mut self, state: &mut ModalState, available: bool) -> (save: bool)
        ensures
            save == available,
            final(self).api_port_available_edit == available,
            final(self).is_api_port_available == (available || old(self).is_api_port_available),
            final(self).api_port_edit == old(self).api_port_edit,
            final(self).available_ips == old(self).available_ips,
            final(self).secret_edit == old(self).secret_edit,
            final(self).ftl_edit == old(self).ftl_edit,
            available ==> final(state).modal is None && (final(state).closeable
                == old(state).closeable),
            !available ==> *final(state) == *old(state),
    {
        self.api_port_available_edit = available;
        if available {
            self.is_api_port_available = true;
            state.modal = None;
        }
        available
    }

    /// Opens the window `modal_id` for a secret: the secret that is typed
    /// starts as the saved one, or empty where none is saved.
    pub fn begin_secret_edit(
        &mut self,
        state: &mut ModalState,
        modal_id: &'static str,
        secret: Option<String>,
        title: String,
    )
        ensures
            match secret {
                Some(saved) => final(self).secret_edit == saved,
                None => final(self).secret_edit@.len() == 0,
            },
            final(self).api_port_edit == old(self).api_port_edit,
            final(self).api_port_available_edit == old(self).api_port_available_edit,
            final(self).is_api_port_available == old(self).is_api_port_available,
            final(self).available_ips == old(self).available_ips,
            final(self).ftl_edit == old(self).ftl_edit,
            Modal::shows_new(
                *final(state),
                *old(state),
                modal_id,
                ModalPosition::CenterTop,
                title@,
            ),
    {
        self.secret_edit = match secret {
            Some(saved) => saved,
            None => String::new(),
        };
        Modal::open(state, modal_id, ModalPosition::CenterTop, title);
    }

    /// Takes the secret that was typed as the one to save, and the window off
    /// the screen.
    pub fn save_secret(&self, state: &mut ModalState) -> (secret: String)
        ensures
            secret == self.secret_edit,
            final(state).modal is None,
            final(state).closeable == old(state).closeable,
    {
        state.modal = None;
        self.secret_edit.clone()
    }

    /// Opens the window for the future time limit: the limit that is typed
    /// starts as `ftl`, the saved one.
    pub fn begin_ftl_edit(&mut self, state: &mut ModalState, ftl: String, title: String)
        ensures
            final(self).ftl_edit == ftl,
            final(self).api_port_edit == old(self).api_port_edit,
            final(self).api_port_available_edit == old(self).api_port_available_edit,
            final(self).is_api_port_available == old(self).is_api_port_available,
            final(self).available_ips == old(self).available_ips,
            final(self).secret_edit == old(self).secret_edit,
            Modal::shows_new(
                *final(state),
                *old(state),
                FTL_MODAL,
                ModalPosition::CenterTop,
                title@,
            ),
    {
        self.ftl_edit = ftl;
        Modal::open(state, FTL_MODAL, ModalPosition::CenterTop, title);
    }

    /// The future time limit that was typed, if it is one: a number of 64
    /// bits.
    pub open spec fn spec_typed_ftl(self) -> Option<nat> {
        spec_parse_unsigned(self.ftl_edit@, u64::MAX as nat)
    }

    /// The future time limit that was typed, if it is one.
    pub fn typed_ftl(&self) -> (ftl: Option<u64>)
        ensures
            match self.spec_typed_ftl() {
                Some(n) => ftl == Some(n as u64),
                None => ftl is None,
            },
    {
        parse_unsigned(self.ftl_edit.as_str(), u64::MAX)
    }

    /// Takes the future time limit that was typed as the one to save, and the
    /// window off the screen. What is no number changes nothing.
    pub fn save_ftl(&self, state: &mut ModalState) -> (ftl: Option<u64>)
        ensures
            match self.spec_typed_ftl() {
                Some(n) => ftl == Some(n as u64) && final(state).modal is None && (final(state).closeable
                    == old(state).closeable),
                None => ftl is None && *final(state) == *old(state),
            },
    {
        let ftl = self.typed_ftl();
        if ftl.is_some() {
            state.modal = None;
        }
        ftl
    }
}

} // verus!
