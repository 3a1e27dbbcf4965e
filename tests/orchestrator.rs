use hyper_connect::credentials::{CredentialsStore, SavedCredential};
use hyper_connect::orchestrator::{Daemon, DaemonAction, DaemonEvent};
use hyper_connect::scan::AccessPointReading;
use hyper_connect::state::{ConnectionStatus, ControlCommand, DaemonConfig, WifiBackend};

fn config() -> DaemonConfig {
    DaemonConfig {
        interface: "wlan0".to_string(),
        ssid: "HyperRecovery".to_string(),
        ap_ip: "192.168.42.1".to_string(),
        port: 80,
        grace_period: 10,
    }
}

fn ap(ssid: &str, strength: u8, rsn: u32) -> AccessPointReading {
    AccessPointReading {
        ssid: ssid.to_string(),
        bssid: "00:11:22:33:44:55".to_string(),
        strength,
        frequency: 2437,
        flags: if rsn != 0 { 1 } else { 0 },
        wpa_flags: 0,
        rsn_flags: rsn,
    }
}

fn to_scan(d: &mut Daemon) {
    assert!(matches!(d.step(DaemonEvent::ConnectivityChecked { full: false }), DaemonAction::WaitForConnectivity { secs: 10 }));
    assert!(matches!(d.step(DaemonEvent::GraceEnded { connected: false }), DaemonAction::Scan));
    assert_eq!(d.state().status, ConnectionStatus::Scanning);
}

#[test]
fn already_online_exits_without_ap() {
    let (mut d, first) = Daemon::new(config());
    assert!(matches!(first, DaemonAction::CheckConnectivity));
    match d.step(DaemonEvent::ConnectivityChecked { full: true }) {
        DaemonAction::Finish { error: None, settle_secs: 0, teardown: false } => {}
        other => panic!("unexpected {:?}", other),
    }
    assert!(!d.state().ap_running);
}

#[test]
fn online_during_grace_exits() {
    let (mut d, _) = Daemon::new(config());
    d.step(DaemonEvent::ConnectivityChecked { full: false });
    assert!(matches!(d.step(DaemonEvent::GraceEnded { connected: true }), DaemonAction::Finish { error: None, .. }));
}

#[test]
fn auto_connect_via_saved_credentials() {
    let (mut d, _) = Daemon::new(config());
    to_scan(&mut d);
    let saved = CredentialsStore::from_records(1, vec![SavedCredential {
        ssid: "HomeWiFi".to_string(),
        password: "hunter22".to_string(),
        last_used: None,
        success_count: 3,
    }]);
    let readings = vec![ap("Cafe", 55, 0), ap("HomeWiFi", 78, 8)];
    match d.step(DaemonEvent::ScanCompleted { readings, now: 100, saved }) {
        DaemonAction::AutoConnect { ssid, password } => {
            assert_eq!(ssid, "HomeWiFi");
            assert_eq!(password, "hunter22");
        }
        other => panic!("unexpected {:?}", other),
    }
    match d.step(DaemonEvent::AutoConnectFinished { result: Ok(()) }) {
        DaemonAction::SaveCredential { ssid, password, settle_secs, teardown } => {
            assert_eq!(ssid, "HomeWiFi");
            assert_eq!(password, "hunter22");
            assert_eq!(settle_secs, 0);
            assert!(!teardown);
        }
        other => panic!("unexpected {:?}", other),
    }
    assert!(!d.state().ap_running);
}

#[test]
fn failed_auto_connect_starts_portal() {
    let (mut d, _) = Daemon::new(config());
    to_scan(&mut d);
    let mut saved = CredentialsStore::default();
    saved.save_credential_at("Cafe", "x", 1);
    d.step(DaemonEvent::ScanCompleted { readings: vec![ap("Cafe", 55, 0)], now: 100, saved });
    assert!(matches!(d.step(DaemonEvent::AutoConnectFinished { result: Err("no".to_string()) }), DaemonAction::StartAp));
    assert_eq!(d.state().status, ConnectionStatus::AwaitingCredentials);
    assert_eq!(d.state().available_networks.len(), 1);
    assert_eq!(d.state().last_scan, Some(100));
}

#[test]
fn portal_flow_secured_network() {
    let (mut d, _) = Daemon::new(config());
    to_scan(&mut d);
    let a = d.step(DaemonEvent::ScanCompleted { readings: vec![ap("Guest", 90, 8)], now: 7, saved: CredentialsStore::default() });
    assert!(matches!(a, DaemonAction::StartAp));
    assert_eq!(d.state().status, ConnectionStatus::AwaitingCredentials);
    assert!(d.state().available_networks[0].is_secured);
    assert!(matches!(d.step(DaemonEvent::ApStartFinished { result: Ok(()) }), DaemonAction::AwaitCommand { start_servers: true }));
    assert!(d.state().ap_running);
    assert_eq!(d.state().ap_ssid.as_deref(), Some("HyperRecovery"));
    assert_eq!(d.state().portal_url.as_deref(), Some("http://192.168.42.1"));
    let cmd = ControlCommand::Connect { ssid: "Guest".to_string(), password: "letmein".to_string(), save: true };
    match d.step(DaemonEvent::CommandReceived { command: cmd }) {
        DaemonAction::StopApThenConnect { ssid, password, delay_ms } => {
            assert_eq!(ssid, "Guest");
            assert_eq!(password, "letmein");
            assert_eq!(delay_ms, 1200);
        }
        other => panic!("unexpected {:?}", other),
    }
    assert_eq!(d.state().status, ConnectionStatus::Connecting);
    assert_eq!(d.state().connecting_to.as_deref(), Some("Guest"));
    match d.step(DaemonEvent::ConnectFinished { result: Ok(()) }) {
        DaemonAction::SaveCredential { ssid, password, settle_secs, teardown } => {
            assert_eq!(ssid, "Guest");
            assert_eq!(settle_secs, 5);
            assert!(teardown);
            let mut store = CredentialsStore::default();
            store.save_credential(&ssid, &password);
            assert_eq!(store.networks.get("Guest").unwrap().success_count, 1);
        }
        other => panic!("unexpected {:?}", other),
    }
    assert_eq!(d.state().status, ConnectionStatus::Connected);
    assert_eq!(d.state().connected_ssid.as_deref(), Some("Guest"));
    assert!(!d.state().ap_running);
}

#[test]
fn failed_connect_restarts_ap_and_keeps_serving() {
    let (mut d, _) = Daemon::new(config());
    to_scan(&mut d);
    d.step(DaemonEvent::ScanCompleted { readings: vec![], now: 1, saved: CredentialsStore::default() });
    d.step(DaemonEvent::ApStartFinished { result: Ok(()) });
    let cmd = ControlCommand::Connect { ssid: "X".to_string(), password: String::new(), save: false };
    d.step(DaemonEvent::CommandReceived { command: cmd });
    assert!(matches!(d.step(DaemonEvent::ConnectFinished { result: Err("bad".to_string()) }), DaemonAction::RestartAp));
    assert!(matches!(d.step(DaemonEvent::ApRestartFinished { result: Ok(()) }), DaemonAction::AwaitCommand { start_servers: false }));
    assert_eq!(d.state().status, ConnectionStatus::Failed);
    assert_eq!(d.state().last_error.as_deref(), Some("bad"));
    assert!(d.state().ap_running);
    assert!(d.state().connecting_to.is_none());
    assert!(matches!(d.step(DaemonEvent::CommandReceived { command: ControlCommand::Scan }), DaemonAction::AwaitCommand { start_servers: false }));
    match d.step(DaemonEvent::CommandReceived { command: ControlCommand::SwitchBackend { backend: WifiBackend::WpaSupplicant } }) {
        DaemonAction::SwitchBackend { backend } => assert_eq!(backend, WifiBackend::WpaSupplicant),
        other => panic!("unexpected {:?}", other),
    }
    assert_eq!(d.state().status, ConnectionStatus::SwitchingBackend);
    d.step(DaemonEvent::BackendSwitchFinished { result: Ok(()) });
    assert_eq!(d.state().wifi_backend, Some(WifiBackend::WpaSupplicant));
    assert!(matches!(d.step(DaemonEvent::Interrupted), DaemonAction::Finish { error: None, teardown: true, .. }));
}

#[test]
fn helper_early_exit_marks_failure() {
    let (mut d, _) = Daemon::new(config());
    to_scan(&mut d);
    d.step(DaemonEvent::ScanCompleted { readings: vec![], now: 1, saved: CredentialsStore::default() });
    let err = "hostapd exited early with status: exit status: 1".to_string();
    match d.step(DaemonEvent::ApStartFinished { result: Err(err.clone()) }) {
        DaemonAction::Finish { error: Some(e), teardown: true, .. } => assert_eq!(e, err),
        other => panic!("unexpected {:?}", other),
    }
    assert_eq!(d.state().status, ConnectionStatus::Failed);
    assert_eq!(d.state().last_error.as_deref(), Some(err.as_str()));
    assert!(!d.state().ap_running);
}

#[test]
fn scan_failure_ends_daemon() {
    let (mut d, _) = Daemon::new(config());
    to_scan(&mut d);
    assert!(!d.accepts(&DaemonEvent::Interrupted));
    match d.step(DaemonEvent::ScanFailed { error: "no device".to_string() }) {
        DaemonAction::Finish { error: Some(e), .. } => assert_eq!(e, "no device"),
        other => panic!("unexpected {:?}", other),
    }
}
