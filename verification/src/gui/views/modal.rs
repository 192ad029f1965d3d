//! The modal window: what it is, and which one is shown.
//!
//! Whether a window can be closed is kept in the [`ModalState`], not in the
//! window: a window and its copies share it, so that closing can be switched
//! off through any of them.

use vstd::prelude::*;
use crate::gui::outside::{spec_uppercase, uppercase};
use crate::gui::views::types::{ModalPosition, ModalState};

verus! {

/// What is needed to draw a modal window.
#[derive(Clone)]
pub struct Modal {
    /// The identifier of the window.
    pub(crate) id: &'static str,
    /// Where the window stands on the screen.
    pub position: ModalPosition,
    /// Where the state keeps whether the window can be closed.
    closeable: usize,
    /// The title, in upper case.
    title: Option<String>,
}

/// The entries `flags` with the entry at `at` set to `value`; unchanged where
/// there is no such entry.
pub open spec fn spec_flags_with(flags: Seq<bool>, at: int, value: bool) -> Seq<bool> {
    if 0 <= at < flags.len() {
        flags.update(at, value)
    } else {
        flags
    }
}

impl Modal {
    /// The identifier of the window.
    pub closed spec fn spec_id(&self) -> &'static str {
        self.id
    }

    /// Where the window stands on the screen.
    pub closed spec fn spec_position(&self) -> ModalPosition {
        self.position
    }

    /// Where the state keeps whether the window can be closed.
    pub closed spec fn spec_flag(&self) -> usize {
        self.closeable
    }

    /// The title of the window, if it has one.
    pub closed spec fn spec_title(&self) -> Option<String> {
        self.title
    }

    /// Whether the window can be closed, as `state` has it. A window that
    /// the state does not know can be closed.
    pub open spec fn spec_is_closeable(&self, state: ModalState) -> bool {
        self.spec_flag() < state.closeable@.len() ==> state.closeable@[self.spec_flag() as int]
    }

    /// The window has the same identifier and position as `other` and shares
    /// with it whether it can be closed, and its title is `title` in upper
    /// case.
    pub open spec fn same_but_title(&self, other: Modal, title: Seq<char>) -> bool {
        &&& self.spec_id() == other.spec_id()
        &&& self.spec_position() == other.spec_position()
        &&& self.spec_flag() == other.spec_flag()
        &&& self.spec_title() matches Some(text)
        &&& text@ == spec_uppercase(title)
    }

    /// The window has the same identifier and title as `other` and shares
    /// with it whether it can be closed, and stands at `position`.
    pub open spec fn same_but_position(&self, other: Modal, position: ModalPosition) -> bool {
        &&& self.spec_id() == other.spec_id()
        &&& self.spec_position() == position
        &&& self.spec_flag() == other.spec_flag()
        &&& self.spec_title() == other.spec_title()
    }

    /// The window has the identifier `id`, stands at `position` and has
    /// `title`, in upper case, as its title.
    pub open spec fn is_titled(&self, id: &'static str, position: ModalPosition, title: Seq<char>)
        -> bool {
        &&& self.spec_id() == id
        &&& self.spec_position() == position
        &&& self.spec_title() matches Some(text)
        &&& text@ == spec_uppercase(title)
    }

    /// `state` shows a window that was just made with the identifier `id`,
    /// at `position` and with `title`, in upper case, as its title: one that
    /// can be closed, and that `before` did not know. What `before` knew of
    /// other windows stands.
    pub open spec fn shows_new(
        state: ModalState,
        before: ModalState,
        id: &'static str,
        position: ModalPosition,
        title: Seq<char>,
    ) -> bool {
        &&& state.modal matches Some(modal)
        &&& modal.is_titled(id, position, title)
        &&& modal.spec_flag() == before.closeable@.len()
        &&& state.closeable@ == before.closeable@.push(true)
    }

    /// A window in the middle of the screen that can be closed and has no
    /// title. The state takes note of it; the window that is shown stays.
    pub fn new(state: &mut ModalState, id: &'static str) -> (modal: Modal)
        ensures
            modal.spec_id() == id,
            modal.spec_position() == ModalPosition::Center,
            modal.spec_title() is None,
            modal.spec_flag() == old(state).closeable@.len(),
            final(state).closeable@ == old(state).closeable@.push(true),
            final(state).modal == old(state).modal,
            modal.spec_is_closeable(*final(state)),
    {
        let closeable = state.closeable.len();
        state.closeable.push(true);
        Modal { id, position: ModalPosition::Center, closeable, title: None }
    }

    /// Makes a window with the identifier `id` at `position` with `title`,
    /// in upper case, as its title, and puts it on the screen.
    pub fn open(
        state: &mut ModalState,
        id: &'static str,
        position: ModalPosition,
        title: String,
    )
        ensures
            Self::shows_new(*final(state), *old(state), id, position, title@),
    {
        let modal = Modal::new(state, id);
        modal.position(position).title(title).show(state);
    }

    /// A copy of the window, which shares with it whether it can be closed.
    pub fn duplicate(&self) -> (copy: Modal)
        ensures
            copy == *self,
    {
        let title = match &self.title {
            Some(title) => Some(title.clone()),
            None => None,
        };
        Modal { id: self.id, position: self.position, closeable: self.closeable, title }
    }

    /// The identifier of the window.
    pub fn id(&self) -> (id: &'static str)
        ensures
            id == self.spec_id(),
    {
        self.id
    }

    /// Where the window stands on the screen.
    pub fn get_position(&self) -> (position: ModalPosition)
        ensures
            position == self.spec_position(),
    {
        self.position
    }

    /// The title of the window, if it has one.
    pub fn get_title(&self) -> (title: &Option<String>)
        ensures
            *title == self.spec_title(),
    {
        &self.title
    }

    /// The same window at `position`.
    pub fn position(self, position: ModalPosition) -> (modal: Modal)
        ensures
            modal.same_but_position(self, position),
    {
        let mut modal = self;
        modal.position = position;
        modal
    }

    /// Moves the window that is shown to `position`.
    pub fn change_position(state: &mut ModalState, position: ModalPosition)
        requires
            old(state).modal is Some,
        ensures
            final(state).modal matches Some(modal) && modal.same_but_position(
                old(state).modal->0,
                position,
            ),
            final(state).closeable == old(state).closeable,
    {
        match state.modal.take() {
            Some(modal) => {
                state.modal = Some(modal.position(position));
            },
            None => {},
        }
    }

    /// Takes the window that is shown off the screen, whichever it is.
    pub fn close(&self, state: &mut ModalState)
        ensures
            final(state).modal is None,
            final(state).closeable == old(state).closeable,
    {
        state.modal = None;
    }

    /// Notes in `state` whether the window can be closed, for the window and
    /// all its copies.
    fn set_closeable(&self, state: &mut ModalState, closeable: bool)
        ensures
            final(state).closeable@ == spec_flags_with(
                old(state).closeable@,
                self.spec_flag() as int,
                closeable,
            ),
            final(state).modal == old(state).modal,
    {
        if self.closeable < state.closeable.len() {
            state.closeable.set(self.closeable, closeable);
        }
    }

    /// The same window, which from now on can be closed if and only if
    /// `closeable`, as can every copy of it.
    pub fn closeable(self, state: &mut ModalState, closeable: bool) -> (modal: Modal)
        ensures
            modal == self,
            final(state).closeable@ == spec_flags_with(
                old(state).closeable@,
                self.spec_flag() as int,
                closeable,
            ),
            final(state).modal == old(state).modal,
    {
        self.set_closeable(state, closeable);
        self
    }

    /// From now on the window cannot be closed, nor can any copy of it.
    pub fn disable_closing(&self, state: &mut ModalState)
        ensures
            final(state).closeable@ == spec_flags_with(
                old(state).closeable@,
                self.spec_flag() as int,
                false,
            ),
            final(state).modal == old(state).modal,
    {
        self.set_closeable(state, false);
    }

    /// From now on the window can be closed, as can every copy of it.
    pub fn enable_closing(&self, state: &mut ModalState)
        ensures
            final(state).closeable@ == spec_flags_with(
                old(state).closeable@,
                self.spec_flag() as int,
                true,
            ),
            final(state).modal == old(state).modal,
    {
        self.set_closeable(state, true);
    }

    /// Whether the window can be closed.
    pub fn is_closeable(&self, state: &ModalState) -> (closeable: bool)
        ensures
            closeable == self.spec_is_closeable(*state),
    {
        if self.closeable < state.closeable.len() {
            state.closeable[self.closeable]
        } else {
            true
        }
    }

    /// The same window with `title`, in upper case, as its title.
    pub fn title(self, title: String) -> (modal: Modal)
        ensures
            modal.same_but_title(self, title@),
    {
        let mut modal = self;
        modal.title = Some(uppercase(title.as_str()));
        modal
    }

    /// Puts the window on the screen, in place of the one that is shown.
    pub fn show(self, state: &mut ModalState)
        ensures
            final(state).modal == Some(self),
            final(state).closeable == old(state).closeable,
    {
        state.modal = Some(self);
    }

    /// Reacts to the back button: a window that is shown and can be closed
    /// leaves the screen. The result is `true` if no window was shown, so
    /// that the button is free for something else.
    pub fn on_back(state: &mut ModalState) -> (free: bool)
        ensures
            free == (old(state).modal is None),
            final(state).closeable == old(state).closeable,
            match old(state).modal {
                Some(modal) => if modal.spec_is_closeable(*old(state)) {
                    final(state).modal is None
                } else {
                    final(state).modal == Some(modal)
                },
                None => final(state).modal is None,
            },
    {
        match state.modal.take() {
            Some(modal) => {
                if !modal.is_closeable(state) {
                    state.modal = Some(modal);
                }
                false
            },
            None => true,
        }
    }

    /// The identifier of the window that is shown, if one is.
    pub fn opened(state: &ModalState) -> (id: Option<&'static str>)
        ensures
            match state.modal {
                Some(modal) => id == Some(modal.spec_id()),
                None => id is None,
            },
    {
        match &state.modal {
            Some(modal) => Some(modal.id),
            None => None,
        }
    }

    /// Gives the window that is shown `title`, in upper case, as its title.
    /// Without a window nothing changes.
    pub fn set_title(state: &mut ModalState, title: String)
        ensures
            final(state).closeable == old(state).closeable,
            match old(state).modal {
                Some(modal) => final(state).modal matches Some(titled) && titled.same_but_title(
                    modal,
                    title@,
                ),
                None => final(state).modal is None,
            },
    {
        match state.modal.take() {
            Some(modal) => {
                state.modal = Some(modal.title(title));
            },
            None => {},
        }
    }

    /// Switches closing off for the window that is shown and for every copy
    /// of it. Without a window nothing changes.
    pub fn disable_closing_of_shown(state: &mut ModalState)
        ensures
            final(state).modal == old(state).modal,
            match old(state).modal {
                Some(modal) => final(state).closeable@ == spec_flags_with(
                    old(state).closeable@,
                    modal.spec_flag() as int,
                    false,
                ),
                None => final(state).closeable == old(state).closeable,
            },
    {
        match state.modal.take() {
            Some(modal) => {
                modal.disable_closing(state);
                state.modal = Some(modal);
            },
            None => {},
        }
    }
}

/// A window and its copies share whether they can be closed: once closing is
/// switched off through one, none of them can be closed, and once it is
/// switched on through one, all of them can be; and a window that the state
/// shows then stays on the screen, or leaves it, when the back button is
/// pressed, as the shared flag says.
pub proof fn lemma_copies_share_closing(
    window: Modal,
    copy: Modal,
    before: ModalState,
    after: ModalState,
    closeable: bool,
)
    requires
        copy.spec_flag() == window.spec_flag(),
        window.spec_flag() < before.closeable@.len(),
        after.closeable@ == spec_flags_with(before.closeable@, copy.spec_flag() as int, closeable),
    ensures
        window.spec_is_closeable(after) == closeable,
        copy.spec_is_closeable(after) == closeable,
{
}

/// Switching closing off or on for one window leaves every window alone that
/// is no copy of it.
pub proof fn lemma_other_windows_keep_closing(
    window: Modal,
    other: Modal,
    before: ModalState,
    after: ModalState,
    closeable: bool,
)
    requires
        other.spec_flag() != window.spec_flag(),
        after.closeable@ == spec_flags_with(
            before.closeable@,
            window.spec_flag() as int,
            closeable,
        ),
    ensures
        other.spec_is_closeable(after) == other.spec_is_closeable(before),
{
}

} // verus!
