use hyper_connect::ipc::{ack_from_response, invalid_request, status_from_response, IpcRequest, IpcResponse};
use hyper_connect::state::{ConnectionStatus, ControlCommand, NetworkInfo, WifiState, WifiStateSnapshot};
use hyper_connect::tui::{centered_box, inset, signal_color, App, Area, InputMode, Key, SignalTier, TuiAction};

fn net(ssid: &str, secured: bool) -> NetworkInfo {
    NetworkInfo {
        ssid: ssid.to_string(),
        bssid: String::new(),
        signal_strength: 50,
        frequency: 2412,
        channel: 1,
        is_secured: secured,
        security_type: if secured { "WPA2/WPA3".to_string() } else { "Open".to_string() },
    }
}

fn app_with(nets: Vec<NetworkInfo>) -> App {
    let mut app = App::new("/run/hyper-wifi-setup.sock".to_string());
    let mut s = WifiStateSnapshot::from_state(&WifiState::new(), 0);
    s.available_networks = nets;
    app.apply_status(Ok(s));
    app
}

#[test]
fn requests_map_to_commands() {
    assert!(IpcRequest::GetStatus.into_command().is_none());
    assert!(matches!(IpcRequest::Scan.into_command(), Some(ControlCommand::Scan)));
    assert!(matches!(IpcRequest::Shutdown.into_command(), Some(ControlCommand::Shutdown)));
    let req = IpcRequest::Connect { ssid: "A".to_string(), password: "p".to_string(), save: false };
    match req.into_command() {
        Some(ControlCommand::Connect { ssid, password, save }) => {
            assert_eq!(ssid, "A");
            assert_eq!(password, "p");
            assert!(!save);
        }
        other => panic!("unexpected {:?}", other),
    }
}

#[test]
fn responses_to_results() {
    match invalid_request("expected value") {
        IpcResponse::Error(m) => assert_eq!(m, "Invalid request: expected value"),
        other => panic!("unexpected {:?}", other),
    }
    let snap = WifiStateSnapshot::from_state(&WifiState::new(), 3);
    assert_eq!(status_from_response(IpcResponse::Status(snap)).unwrap().status, ConnectionStatus::Initializing);
    assert_eq!(status_from_response(IpcResponse::Error("x".to_string())).unwrap_err(), "Daemon error: x");
    assert_eq!(status_from_response(IpcResponse::Acknowledged).unwrap_err(), "Unexpected response");
    assert!(ack_from_response(IpcResponse::Acknowledged).is_ok());
}

#[test]
fn snapshot_reports_seconds_since_scan() {
    let mut st = WifiState::new();
    st.last_scan = Some(100);
    assert_eq!(WifiStateSnapshot::from_state(&st, 130).last_scan_secs_ago, Some(30));
    assert_eq!(WifiStateSnapshot::from_state(&st, 90).last_scan_secs_ago, Some(0));
    assert_eq!(WifiStateSnapshot::from_state(&WifiState::new(), 90).last_scan_secs_ago, None);
}

#[test]
fn app_starts_empty() {
    let app = App::new("sock".to_string());
    assert!(app.state.is_none());
    assert_eq!(app.selected_ssid(), None);
    assert_eq!(app.input_mode, InputMode::Normal);
}

#[test]
fn navigation_and_open_connect() {
    let mut app = app_with(vec![net("A", true), net("B", false)]);
    assert_eq!(app.selected_ssid().as_deref(), Some("A"));
    app.on_key(Key::Up);
    assert_eq!(app.selected_network, 0);
    app.on_key(Key::Char('j'));
    app.on_key(Key::Down);
    assert_eq!(app.selected_network, 1);
    match app.on_key(Key::Enter) {
        TuiAction::Connect { ssid, password } => {
            assert_eq!(ssid, "B");
            assert_eq!(password, "");
        }
        other => panic!("unexpected {:?}", other),
    }
    assert!(matches!(app.on_key(Key::Char('r')), TuiAction::Refresh));
    app.on_key(Key::Char('q'));
    assert!(app.should_quit);
}

#[test]
fn password_entry_for_secured_network() {
    let mut app = app_with(vec![net("A", true)]);
    assert!(matches!(app.on_key(Key::Enter), TuiAction::Nothing));
    assert_eq!(app.input_mode, InputMode::Password);
    for c in "secreT".chars() {
        app.on_key(Key::Char(c));
    }
    app.on_key(Key::Backspace);
    app.on_key(Key::Tab);
    assert!(app.password_visible);
    match app.on_key(Key::Enter) {
        TuiAction::Connect { ssid, password } => {
            assert_eq!(ssid, "A");
            assert_eq!(password, "secre");
        }
        other => panic!("unexpected {:?}", other),
    }
    app.apply_connect_result(Err("refused".to_string()));
    assert_eq!(app.error_message.as_deref(), Some("Connection failed: refused"));
    app.apply_connect_result(Ok(()));
    assert_eq!(app.input_mode, InputMode::Normal);
    assert_eq!(app.password_input, "");
}

#[test]
fn escape_leaves_password_mode() {
    let mut app = app_with(vec![net("A", true)]);
    app.on_key(Key::Enter);
    app.on_key(Key::Char('x'));
    app.on_key(Key::Esc);
    assert_eq!(app.input_mode, InputMode::Normal);
    assert_eq!(app.password_input, "");
    app.apply_status(Err("gone".to_string()));
    assert_eq!(app.error_message.as_deref(), Some("Failed to connect to daemon: gone"));
    assert!(app.state.is_some());
}

#[test]
fn centered_box_and_inset() {
    let screen = Area { x: 0, y: 0, width: 80, height: 24 };
    assert_eq!(centered_box(screen, 50, 5), Area { x: 15, y: 9, width: 50, height: 5 });
    let tiny = Area { x: 3, y: 4, width: 1, height: 0 };
    assert_eq!(centered_box(tiny, 50, 5), Area { x: 3, y: 4, width: 1, height: 1 });
    assert_eq!(inset(screen, 2), Area { x: 2, y: 2, width: 76, height: 20 });
    assert_eq!(inset(Area { x: 65534, y: 0, width: 3, height: 3 }, 40000), Area { x: 65535, y: 40000, width: 1, height: 1 });
}

#[test]
fn signal_color_tiers() {
    assert_eq!(signal_color(100), SignalTier::Strong);
    assert_eq!(signal_color(80), SignalTier::Strong);
    assert_eq!(signal_color(79), SignalTier::Good);
    assert_eq!(signal_color(30), SignalTier::Weak);
    assert_eq!(signal_color(29), SignalTier::Poor);
    assert_eq!(signal_color(101), SignalTier::Poor);
}
