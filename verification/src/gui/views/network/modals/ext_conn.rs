//! The window in which a connection to an outside node is entered.

use vstd::prelude::*;
use crate::gui::outside::{is_url, spec_is_url, spec_trim, trim};
use crate::gui::views::input::begins_with;
use crate::gui::views::types::ModalState;
use crate::wallet::ExternalConnection;

verus! {

/// What the window to add or change an outside connection holds.
pub struct ExternalConnectionModal {
    /// The window has not been drawn yet.
    pub first_draw: bool,
    /// The URL as it was typed.
    pub ext_node_url_edit: String,
    /// The secret as it was typed.
    pub ext_node_secret_edit: String,
    /// The URL that was typed last is none.
    pub ext_node_url_error: bool,
    /// The connection that is changed, if it is not a new one.
    pub ext_conn_id: Option<i64>,
}

/// The URL that a typed text stands for: the text itself where it begins
/// with `http`, and the text after `http://` otherwise.
pub open spec fn spec_typed_url(typed: Seq<char>) -> Seq<char> {
    if 4 <= typed.len() && typed.subrange(0, 4) == "http"@ {
        typed
    } else {
        "http://"@ + typed
    }
}

/// The secret that a typed text stands for: none where nothing was typed.
pub open spec fn spec_typed_secret(typed: String) -> Option<String> {
    if typed@.len() == 0 {
        None
    } else {
        Some(typed)
    }
}

impl ExternalConnectionModal {
    /// The identifier of the window in the network panel.
    pub const NETWORK_ID: &'static str = "net_ext_conn_modal";

    /// The identifier of the window in the wallet panel.
    pub const WALLET_ID: &'static str = "wallet_ext_conn_modal";

    /// Nothing is typed, and no error is shown.
    pub open spec fn is_cleared(self) -> bool {
        &&& self.ext_node_url_edit@.len() == 0
        &&& self.ext_node_secret_edit@.len() == 0
        &&& !self.ext_node_url_error
    }

    /// The content of the window for `conn`, or for a new connection.
    pub fn new(conn: Option<ExternalConnection>) -> (modal: ExternalConnectionModal)
        ensures
            modal.first_draw,
            !modal.ext_node_url_error,
            match conn {
                Some(c) => {
                    &&& modal.ext_node_url_edit == c.url
                    &&& modal.ext_conn_id == Some(c.id)
                    &&& match c.secret {
                        Some(secret) => modal.ext_node_secret_edit == secret,
                        None => modal.ext_node_secret_edit@.len() == 0,
                    }
                },
                None => {
                    &&& modal.ext_node_url_edit@.len() == 0
                    &&& modal.ext_node_secret_edit@.len() == 0
                    &&& modal.ext_conn_id is None
                },
            },
    {
        let (ext_node_url_edit, ext_node_secret_edit, ext_conn_id) = match conn {
            Some(c) => {
                let secret = match c.secret {
                    Some(secret) => secret,
                    None => String::new(),
                };
                (c.url, secret, Some(c.id))
            },
            None => (String::new(), String::new(), None),
        };
        ExternalConnectionModal {
            first_draw: true,
            ext_node_url_edit,
            ext_node_secret_edit,
            ext_node_url_error: false,
            ext_conn_id,
        }
    }

    /// Takes what was typed as a connection.
    ///
    /// The URL is what was typed, after `http://` where it does not begin
    /// with `http`. Where that is a URL once the white space at its ends is
    /// gone, the result is the connection, with the identifier of the one
    /// that is changed or with `new_id`; the window is cleared and leaves the
    /// screen. Where it is none, the error is shown and nothing else changes.
    pub fn on_add(&mut self, state: &mut ModalState, new_id: i64) -> (added: Option<
        ExternalConnection,
    >)
        ensures
            final(self).first_draw == old(self).first_draw,
            final(self).ext_conn_id == old(self).ext_conn_id,
            spec_is_url(spec_trim(spec_typed_url(old(self).ext_node_url_edit@))) ==> {
                &&& added matches Some(conn)
                &&& conn.url@ == spec_typed_url(old(self).ext_node_url_edit@)
                &&& conn.secret == spec_typed_secret(old(self).ext_node_secret_edit)
                &&& conn.id == match old(self).ext_conn_id {
                    Some(id) => id,
                    None => new_id,
                }
                &&& final(self).is_cleared()
                &&& final(state).modal is None
                &&& final(state).closeable == old(state).closeable
            },
            !spec_is_url(spec_trim(spec_typed_url(old(self).ext_node_url_edit@))) ==> {
                &&& added is None
                &&& final(self).ext_node_url_error
                &&& final(self).ext_node_url_edit == old(self).ext_node_url_edit
                &&& final(self).ext_node_secret_edit == old(self).ext_node_secret_edit
                &&& *final(state) == *old(state)
            },
    {
        proof {
            reveal_strlit("http");
        }
        let url = if !begins_with(self.ext_node_url_edit.as_str(), "http") {
            let mut url = String::from_str("http://");
            url.append(self.ext_node_url_edit.as_str());
            url
        } else {
            self.ext_node_url_edit.clone()
        };
        let error = !is_url(trim(url.as_str()));
        self.ext_node_url_error = error;
        if error {
            return None;
        }
        let secret = if self.ext_node_secret_edit.as_str().is_empty() {
            None
        } else {
            Some(self.ext_node_secret_edit.clone())
        };
        let id = match self.ext_conn_id {
            Some(id) => id,
            None => new_id,
        };
        self.ext_node_url_edit = String::new();
        self.ext_node_secret_edit = String::new();
        state.modal = None;
        Some(ExternalConnection::new(id, url, secret))
    }

    /// Drops what was typed: the window is cleared and leaves the screen.
    pub fn on_cancel(&mut self, state: &mut ModalState)
        ensures
            final(self).is_cleared(),
            final(self).first_draw == old(self).first_draw,
            final(self).ext_conn_id == old(self).ext_conn_id,
            final(state).modal is None,
            final(state).closeable == old(state).closeable,
    {
        self.ext_node_url_edit = String::new();
        self.ext_node_secret_edit = String::new();
        self.ext_node_url_error = false;
        state.modal = None;
    }
}

} // verus!
