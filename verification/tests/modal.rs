use grim::gui::views::modal::Modal;
use grim::gui::views::types::{ModalPosition, ModalState};

#[test]
fn a_new_modal_is_centered_closeable_and_untitled() {
    let mut state = ModalState::new();
    let modal = Modal::new(&mut state, "ftl");
    assert_eq!(modal.id(), "ftl");
    assert_eq!(modal.position, ModalPosition::Center);
    assert_eq!(modal.get_position(), ModalPosition::Center);
    assert!(modal.is_closeable(&state));
    assert!(modal.get_title().is_none());
    assert!(state.modal.is_none());
}

#[test]
fn the_builders_change_one_thing_each() {
    let mut state = ModalState::new();
    let modal = Modal::new(&mut state, "api_port").position(ModalPosition::CenterTop);
    assert_eq!(modal.position, ModalPosition::CenterTop);
    assert!(modal.is_closeable(&state));
    let modal = modal.closeable(&mut state, false);
    assert_eq!(modal.position, ModalPosition::CenterTop);
    assert!(!modal.is_closeable(&state));
    let modal = modal.title("Change value".to_string());
    assert_eq!(modal.get_title(), &Some("CHANGE VALUE".to_string()));
    assert_eq!(modal.id(), "api_port");
    assert!(!modal.is_closeable(&state));
    assert_eq!(modal.position, ModalPosition::CenterTop);
}

#[test]
fn titles_are_shown_in_upper_case() {
    let mut state = ModalState::new();
    let modal = Modal::new(&mut state, "m").title("straße über alles".to_string());
    assert_eq!(modal.get_title(), &Some("STRASSE ÜBER ALLES".to_string()));
    let modal = modal.title(String::new());
    assert_eq!(modal.get_title(), &Some(String::new()));
}

#[test]
fn closing_can_be_switched_off_and_on() {
    let mut state = ModalState::new();
    let modal = Modal::new(&mut state, "m");
    modal.disable_closing(&mut state);
    assert!(!modal.is_closeable(&state));
    modal.disable_closing(&mut state);
    assert!(!modal.is_closeable(&state));
    modal.enable_closing(&mut state);
    assert!(modal.is_closeable(&state));
    assert_eq!(modal.id(), "m");
}

#[test]
fn every_copy_of_a_modal_shares_its_closing() {
    let mut state = ModalState::new();
    let modal = Modal::new(&mut state, "m");
    let copy = modal.clone();
    let other = modal.duplicate();
    assert!(modal.is_closeable(&state));
    copy.disable_closing(&mut state);
    assert!(!modal.is_closeable(&state));
    assert!(!copy.is_closeable(&state));
    assert!(!other.is_closeable(&state));
    other.enable_closing(&mut state);
    assert!(modal.is_closeable(&state));
    assert!(copy.is_closeable(&state));
}

#[test]
fn a_copy_that_disables_closing_keeps_the_shown_modal_open() {
    let mut state = ModalState::new();
    Modal::new(&mut state, "delete").show(&mut state);
    let copy = state.modal.as_ref().unwrap().clone();
    copy.disable_closing(&mut state);
    assert!(!Modal::on_back(&mut state));
    assert_eq!(Modal::opened(&state), Some("delete"));
    copy.enable_closing(&mut state);
    assert!(!Modal::on_back(&mut state));
    assert!(state.modal.is_none());
}

#[test]
fn modals_that_are_no_copies_do_not_share_their_closing() {
    let mut state = ModalState::new();
    let first = Modal::new(&mut state, "m");
    let second = Modal::new(&mut state, "m");
    first.disable_closing(&mut state);
    assert!(!first.is_closeable(&state));
    assert!(second.is_closeable(&state));
}

#[test]
fn nothing_is_shown_at_first() {
    assert!(ModalState::new().modal.is_none());
    assert!(ModalState::default().modal.is_none());
    assert_eq!(Modal::opened(&ModalState::new()), None);
}

#[test]
fn a_modal_that_is_shown_is_the_opened_one() {
    let mut state = ModalState::new();
    Modal::new(&mut state, "first").show(&mut state);
    assert_eq!(Modal::opened(&state), Some("first"));
    Modal::new(&mut state, "second").title("t".to_string()).show(&mut state);
    assert_eq!(Modal::opened(&state), Some("second"));
    assert_eq!(state.modal.as_ref().unwrap().get_title(), &Some("T".to_string()));
}

#[test]
fn a_modal_is_opened_in_one_step() {
    let mut state = ModalState::new();
    Modal::open(&mut state, "ftl", ModalPosition::CenterTop, "Change value".to_string());
    let shown = state.modal.clone().unwrap();
    assert_eq!(shown.id(), "ftl");
    assert_eq!(shown.get_position(), ModalPosition::CenterTop);
    assert_eq!(shown.get_title(), &Some("CHANGE VALUE".to_string()));
    assert!(shown.is_closeable(&state));
}

#[test]
fn close_takes_the_shown_modal_away() {
    let mut state = ModalState::new();
    Modal::new(&mut state, "first").closeable(&mut state, false).show(&mut state);
    Modal::new(&mut state, "other").close(&mut state);
    assert!(state.modal.is_none());
    Modal::new(&mut state, "other").close(&mut state);
    assert!(state.modal.is_none());
}

#[test]
fn back_closes_a_closeable_modal() {
    let mut state = ModalState::new();
    Modal::new(&mut state, "m").show(&mut state);
    assert!(!Modal::on_back(&mut state));
    assert!(state.modal.is_none());
    assert!(Modal::on_back(&mut state));
    assert!(state.modal.is_none());
}

#[test]
fn back_leaves_a_modal_that_cannot_be_closed() {
    let mut state = ModalState::new();
    Modal::new(&mut state, "m")
        .closeable(&mut state, false)
        .position(ModalPosition::CenterTop)
        .show(&mut state);
    assert!(!Modal::on_back(&mut state));
    assert_eq!(Modal::opened(&state), Some("m"));
    assert!(!Modal::on_back(&mut state));
    let shown = state.modal.clone().unwrap();
    assert_eq!(shown.position, ModalPosition::CenterTop);
    assert!(!shown.is_closeable(&state));
    shown.enable_closing(&mut state);
    assert!(!Modal::on_back(&mut state));
    assert!(state.modal.is_none());
}

#[test]
fn closing_is_switched_off_for_the_shown_modal() {
    let mut state = ModalState::new();
    Modal::disable_closing_of_shown(&mut state);
    assert!(state.modal.is_none());
    let modal = Modal::new(&mut state, "m");
    modal.clone().show(&mut state);
    Modal::disable_closing_of_shown(&mut state);
    assert!(!modal.is_closeable(&state));
    assert_eq!(Modal::opened(&state), Some("m"));
}

#[test]
fn the_shown_modal_can_be_moved() {
    let mut state = ModalState::new();
    Modal::new(&mut state, "m").title("a".to_string()).closeable(&mut state, false).show(&mut state);
    Modal::change_position(&mut state, ModalPosition::CenterTop);
    let shown = state.modal.clone().unwrap();
    assert_eq!(shown.position, ModalPosition::CenterTop);
    assert_eq!(shown.id(), "m");
    assert_eq!(shown.get_title(), &Some("A".to_string()));
    assert!(!shown.is_closeable(&state));
    Modal::change_position(&mut state, ModalPosition::Center);
    assert_eq!(state.modal.as_ref().unwrap().position, ModalPosition::Center);
}

#[test]
fn the_shown_modal_can_be_retitled() {
    let mut state = ModalState::new();
    Modal::set_title(&mut state, "nobody".to_string());
    assert!(state.modal.is_none());
    Modal::new(&mut state, "m").position(ModalPosition::CenterTop).show(&mut state);
    Modal::set_title(&mut state, "Recovery phrase".to_string());
    let shown = state.modal.clone().unwrap();
    assert_eq!(shown.get_title(), &Some("RECOVERY PHRASE".to_string()));
    assert_eq!(shown.position, ModalPosition::CenterTop);
    assert!(shown.is_closeable(&state));
}
