use grim::gui::views::modal::Modal;
use grim::gui::views::network::container::NetworkTabType;
use grim::gui::views::network::modals::ext_conn::ExternalConnectionModal;
use grim::gui::views::network::node::NetworkNode;
use grim::gui::views::network::setup::node::{
    NodeSetup, API_PORT_MODAL, API_SECRET_MODAL, FOREIGN_API_SECRET_MODAL, FTL_MODAL,
};
use grim::gui::views::network::setup::pool::PoolSetup;
use grim::gui::views::network::types::NodeTabType;
use grim::gui::views::types::ModalState;
use grim::gui::views::wallets::wallet::transport::WalletTransport;
use grim::gui::views::wallets::wallet::WalletContent;
use grim::wallet::ExternalConnection;

fn shown(id: &'static str) -> ModalState {
    let mut state = ModalState::new();
    Modal::new(&mut state, id).show(&mut state);
    state
}

fn typed(url: &str, secret: &str, id: Option<i64>) -> ExternalConnectionModal {
    let mut modal = ExternalConnectionModal::new(None);
    modal.ext_node_url_edit = url.to_string();
    modal.ext_node_secret_edit = secret.to_string();
    modal.ext_conn_id = id;
    modal
}

#[test]
fn network_tabs_are_named_by_their_keys() {
    assert_eq!(NetworkTabType::Node.name(), "network.node");
    assert_eq!(NetworkTabType::Metrics.name(), "network.metrics");
    assert_eq!(NetworkTabType::Mining.name(), "network.mining");
    assert_eq!(NetworkTabType::Settings.name(), "network.settings");
}

#[test]
fn node_tabs_are_titled_by_their_keys() {
    assert_eq!(NodeTabType::Info.title(), "network.node");
    assert_eq!(NodeTabType::Metrics.title(), "network.metrics");
    assert_eq!(NodeTabType::Mining.title(), "network.mining");
    assert_eq!(NodeTabType::Settings.title(), "network.settings");
}

#[test]
fn the_node_tab_is_of_kind_node() {
    assert_eq!(NetworkNode.get_type(), NetworkTabType::Node);
    assert_eq!(NetworkNode::default().get_type(), NetworkTabType::Node);
    let _ = WalletTransport::default();
}

#[test]
fn peer_boxes_are_rounded_at_the_ends_of_the_list() {
    assert_eq!(NetworkNode::peer_rounding(1, 0, 1), [true, true]);
    assert_eq!(NetworkNode::peer_rounding(3, 0, 3), [true, false]);
    assert_eq!(NetworkNode::peer_rounding(3, 1, 3), [false, false]);
    assert_eq!(NetworkNode::peer_rounding(3, 2, 3), [false, true]);
    assert_eq!(NetworkNode::peer_rounding(2, 0, 1), [true, false]);
    assert_eq!(NetworkNode::peer_rounding(1, 1, 2), [true, true]);
}

#[test]
fn the_window_for_a_new_connection_is_empty() {
    let modal = ExternalConnectionModal::new(None);
    assert!(modal.first_draw);
    assert_eq!(modal.ext_node_url_edit, "");
    assert_eq!(modal.ext_node_secret_edit, "");
    assert!(!modal.ext_node_url_error);
    assert_eq!(modal.ext_conn_id, None);
    assert_eq!(ExternalConnectionModal::NETWORK_ID, "net_ext_conn_modal");
    assert_eq!(ExternalConnectionModal::WALLET_ID, "wallet_ext_conn_modal");
}

#[test]
fn the_window_for_a_connection_shows_it() {
    let conn = ExternalConnection::new(7, "https://grin.example".to_string(), Some("s".to_string()));
    let modal = ExternalConnectionModal::new(Some(conn));
    assert_eq!(modal.ext_node_url_edit, "https://grin.example");
    assert_eq!(modal.ext_node_secret_edit, "s");
    assert_eq!(modal.ext_conn_id, Some(7));
    let conn = ExternalConnection::new(8, "http://a".to_string(), None);
    let modal = ExternalConnectionModal::new(Some(conn));
    assert_eq!(modal.ext_node_secret_edit, "");
    assert_eq!(modal.ext_conn_id, Some(8));
}

#[test]
fn a_typed_host_gets_the_http_scheme() {
    let mut state = shown(ExternalConnectionModal::NETWORK_ID);
    let mut modal = typed("grinnode.live:3413", "", None);
    let conn = modal.on_add(&mut state, 42).expect("a connection");
    assert_eq!(conn.url, "http://grinnode.live:3413");
    assert_eq!(conn.secret, None);
    assert_eq!(conn.id, 42);
    assert_eq!(modal.ext_node_url_edit, "");
    assert_eq!(modal.ext_node_secret_edit, "");
    assert!(!modal.ext_node_url_error);
    assert!(state.modal.is_none());
}

#[test]
fn a_typed_url_is_kept_as_it_is() {
    let mut state = shown(ExternalConnectionModal::WALLET_ID);
    let mut modal = typed("https://grinnode.live:3413", "secret", Some(5));
    let conn = modal.on_add(&mut state, 42).expect("a connection");
    assert_eq!(conn.url, "https://grinnode.live:3413");
    assert_eq!(conn.secret, Some("secret".to_string()));
    assert_eq!(conn.id, 5);
    assert_eq!(modal.ext_conn_id, Some(5));
    assert!(state.modal.is_none());
}

#[test]
fn white_space_at_the_ends_does_not_spoil_a_url() {
    let mut state = shown(ExternalConnectionModal::NETWORK_ID);
    let mut modal = typed("example.com\u{3000}", "", None);
    let conn = modal.on_add(&mut state, 1).expect("a connection");
    assert_eq!(conn.url, "http://example.com\u{3000}");
}

#[test]
fn what_is_no_url_is_refused() {
    let mut state = shown(ExternalConnectionModal::NETWORK_ID);
    let mut modal = typed("http//:", "secret", Some(5));
    assert!(modal.on_add(&mut state, 42).is_none());
    assert!(modal.ext_node_url_error);
    assert_eq!(modal.ext_node_url_edit, "http//:");
    assert_eq!(modal.ext_node_secret_edit, "secret");
    assert!(state.modal.is_some());
    let mut modal = typed("", "", None);
    assert!(modal.on_add(&mut state, 42).is_none());
    assert!(modal.ext_node_url_error);
    assert!(state.modal.is_some());
}

#[test]
fn an_error_goes_away_with_a_url() {
    let mut state = shown(ExternalConnectionModal::NETWORK_ID);
    let mut modal = typed("exa mple", "", None);
    assert!(modal.on_add(&mut state, 1).is_none());
    assert!(modal.ext_node_url_error);
    modal.ext_node_url_edit = "example".to_string();
    assert!(modal.on_add(&mut state, 1).is_some());
    assert!(!modal.ext_node_url_error);
}

#[test]
fn cancel_clears_the_window() {
    let mut state = shown(ExternalConnectionModal::NETWORK_ID);
    let mut modal = typed("http//:", "secret", Some(5));
    modal.ext_node_url_error = true;
    modal.on_cancel(&mut state);
    assert_eq!(modal.ext_node_url_edit, "");
    assert_eq!(modal.ext_node_secret_edit, "");
    assert!(!modal.ext_node_url_error);
    assert_eq!(modal.ext_conn_id, Some(5));
    assert!(state.modal.is_none());
}

#[test]
fn the_node_section_starts_from_the_saved_settings() {
    let ips = vec!["127.0.0.1".to_string(), "192.168.1.5".to_string()];
    let setup = NodeSetup::new(ips.clone(), "3413".to_string(), false, "5".to_string());
    assert_eq!(setup.available_ips, ips);
    assert_eq!(setup.api_port_edit, "3413");
    assert!(!setup.api_port_available_edit);
    assert!(!setup.is_api_port_available);
    assert_eq!(setup.secret_edit, "");
    assert_eq!(setup.ftl_edit, "5");
    assert_eq!(setup.modal_ids(), vec!["api_port", "api_secret", "foreign_api_secret", "ftl"]);
    assert_eq!(
        setup.modal_ids(),
        vec![API_PORT_MODAL, API_SECRET_MODAL, FOREIGN_API_SECRET_MODAL, FTL_MODAL]
    );
}

#[test]
fn the_pool_section_starts_from_the_saved_settings() {
    let setup = PoolSetup::new(
        "500000".to_string(),
        "30".to_string(),
        "50000".to_string(),
        "50000".to_string(),
        "40000".to_string(),
    );
    assert_eq!(setup.fee_base_edit, "500000");
    assert_eq!(setup.reorg_period_edit, "30");
    assert_eq!(setup.pool_size_edit, "50000");
    assert_eq!(setup.stempool_size_edit, "50000");
    assert_eq!(setup.max_weight_edit, "40000");
    assert_eq!(
        setup.modal_ids(),
        vec!["fee_base", "reorg_period", "pool_size", "stempool_size", "max_weight"]
    );
}

#[test]
fn the_wallet_content_holds_its_wallet() {
    assert_eq!(WalletContent::new("main".to_string()).item, "main");
}
