use send_it::command::ZenohCommand;
use send_it::settings::{mode_options, transport_options, SystemTab};
use send_it::state::SendItApp;
use send_it::status::ConnectionStatus;

#[test]
fn tabs_in_order_with_captions() {
    let labels: Vec<&str> = SystemTab::all().iter().map(|t| t.label()).collect();
    assert_eq!(labels, vec!["connection", "subscriptions", "query", "queryable", "memory"]);
}

#[test]
fn clicking_a_tab_twice_closes_it() {
    let mut app = SendItApp::new();
    app.select_system_tab(SystemTab::Query);
    assert_eq!(app.system_tab, Some(SystemTab::Query));
    app.select_system_tab(SystemTab::Connection);
    assert_eq!(app.system_tab, Some(SystemTab::Connection));
    app.select_system_tab(SystemTab::Connection);
    assert_eq!(app.system_tab, None);
}

#[test]
fn connect_with_blank_address_uses_discovery() {
    let mut app = SendItApp::new();
    app.connection_status = ConnectionStatus::Disconnected;
    assert_eq!(app.connection_button_label(), "connect");
    assert_eq!(app.connect_locators(), "");
    match app.press_connection_button(true) {
        Some(ZenohCommand::Connect { locators, listen_port, mode, config_json }) => {
            assert_eq!(locators, "");
            assert_eq!(listen_port, "7447");
            assert_eq!(mode, "peer");
            assert_eq!(config_json, "{}");
        }
        other => panic!("{:?}", other),
    }
    assert!(matches!(app.connection_status, ConnectionStatus::ConnectingPublishing));
}

#[test]
fn connect_with_address_names_endpoint() {
    let mut app = SendItApp::new();
    app.connection_status = ConnectionStatus::Error("timeout".to_string());
    app.connect_address = "192.168.1.4".to_string();
    app.connect_transport = "udp".to_string();
    app.connect_port = "7448".to_string();
    app.connection_mode = "client".to_string();
    assert!(!app.shows_listen_port());
    match app.press_connection_button(true) {
        Some(ZenohCommand::Connect { locators, mode, .. }) => {
            assert_eq!(locators, "udp/192.168.1.4:7448");
            assert_eq!(mode, "client");
        }
        other => panic!("{:?}", other),
    }
}

#[test]
fn connect_without_worker_does_nothing() {
    let mut app = SendItApp::new();
    app.connection_status = ConnectionStatus::Disconnected;
    assert!(app.press_connection_button(false).is_none());
    assert!(matches!(app.connection_status, ConnectionStatus::Disconnected));
}

#[test]
fn listen_port_shown_in_peer_mode() {
    let app = SendItApp::new();
    assert!(app.shows_listen_port());
}

#[test]
fn subscribe_needs_session_and_key() {
    let mut app = SendItApp::new();
    assert!(!app.can_subscribe());
    assert!(app.press_subscribe(true).is_none());
    app.connection_status = ConnectionStatus::WaitingForPeers;
    assert!(app.can_subscribe());
    match app.press_subscribe(true) {
        Some(ZenohCommand::Subscribe { key_expr, reliability, mode }) => {
            assert_eq!(key_expr, "demo/**");
            assert_eq!(reliability, "reliable");
            assert_eq!(mode, "push");
        }
        other => panic!("{:?}", other),
    }
    assert!(app.press_subscribe(false).is_none());
    app.subscribe_key.clear();
    assert!(!app.can_subscribe());
    assert!(app.press_subscribe(true).is_none());
}

#[test]
fn query_sets_alert_and_parses_timeout() {
    let mut app = SendItApp::new();
    app.connection_status = ConnectionStatus::Connected;
    app.query_timeout = "2500".to_string();
    match app.press_query(true) {
        Some(ZenohCommand::Query { selector, value, timeout_ms }) => {
            assert_eq!(selector, "demo/**");
            assert_eq!(value, "");
            assert_eq!(timeout_ms, 2500);
        }
        other => panic!("{:?}", other),
    }
    assert_eq!(app.query_alert, Some("Query sent for 'demo/**'. Waiting for responses...".to_string()));
    app.dismiss_query_alert();
    assert_eq!(app.query_alert, None);
}

#[test]
fn query_timeout_defaults_to_ten_seconds() {
    let mut app = SendItApp::new();
    app.connection_status = ConnectionStatus::Connected;
    app.query_timeout = "soon".to_string();
    match app.press_query(true) {
        Some(ZenohCommand::Query { timeout_ms, .. }) => assert_eq!(timeout_ms, 10000),
        other => panic!("{:?}", other),
    }
}

#[test]
fn query_disabled_without_session_or_selector() {
    let mut app = SendItApp::new();
    assert!(!app.can_query());
    assert!(app.press_query(true).is_none());
    assert_eq!(app.query_alert, None);
    app.connection_status = ConnectionStatus::Connected;
    app.query_selector.clear();
    assert!(app.press_query(true).is_none());
}

#[test]
fn queryable_checkbox_commands() {
    let mut app = SendItApp::new();
    assert_eq!(app.queryable_status_label(), "inactive");
    match app.set_queryable_enabled(true, true) {
        Some(ZenohCommand::EnableQueryable { key_expr }) => assert_eq!(key_expr, "**"),
        other => panic!("{:?}", other),
    }
    assert_eq!(app.queryable_status_label(), "active");
    assert!(app.set_queryable_enabled(true, true).is_none());
    assert!(matches!(app.set_queryable_enabled(false, true), Some(ZenohCommand::DisableQueryable)));
    assert!(!app.queryable_enabled);
    assert!(app.set_queryable_enabled(true, false).is_none());
    assert!(app.queryable_enabled);
}

#[test]
fn limit_fields_clamp() {
    let mut app = SendItApp::new();
    app.edit_memory_limit("5000");
    assert_eq!(app.max_memory_mb, 1000);
    app.edit_memory_limit("3");
    assert_eq!(app.max_memory_mb, 10);
    app.edit_memory_limit("x");
    assert_eq!(app.max_memory_mb, 10);
    app.edit_message_limit("1000000");
    assert_eq!(app.max_messages, 50000);
    app.edit_message_limit("250");
    assert_eq!(app.max_messages, 250);
    app.edit_rate_limit("1");
    assert_eq!(app.rate_limit_per_second, 10);
    app.edit_rate_limit("20000");
    assert_eq!(app.rate_limit_per_second, 10000);
}

#[test]
fn form_offers_transports_and_modes() {
    assert_eq!(transport_options(), vec!["tcp", "udp", "quic", "ws", "tls"]);
    assert_eq!(mode_options(), vec![("client", "Client"), ("peer", "Peer")]);
}

#[test]
fn form_picks_set_offered_values() {
    let mut app = SendItApp::new();
    app.select_transport(2);
    assert_eq!(app.connect_transport, "quic");
    app.select_transport(4);
    assert_eq!(app.connect_transport, "tls");
    app.select_mode(0);
    assert_eq!(app.connection_mode, "client");
    assert!(!app.shows_listen_port());
    app.select_mode(1);
    assert_eq!(app.connection_mode, "peer");
    assert!(app.shows_listen_port());
}
