use hyper_connect::connector::{
    connection_profile, SettingValue,
    activation_step, build_connection_settings, ActivationStep, ActivationTarget, ConnectAction, ConnectEvent,
    StationConnect,
};

fn state(s: u32, past: bool) -> ConnectEvent {
    ConnectEvent::DeviceState { state: s, reason_state: 0, reason_code: 0, past_deadline: past }
}

#[test]
fn activation_verdicts() {
    assert_eq!(activation_step(100, true), ActivationStep::Activated);
    assert_eq!(activation_step(120, false), ActivationStep::Failed);
    assert_eq!(activation_step(50, true), ActivationStep::TimedOut);
    assert_eq!(activation_step(50, false), ActivationStep::KeepWaiting);
}

#[test]
fn settings_for_secured_and_open_networks() {
    let s = build_connection_settings("Guest", "letmein", false);
    assert_eq!(s.id, "Guest");
    assert_eq!(s.ssid, "Guest");
    assert_eq!(s.psk.as_deref(), Some("letmein"));
    assert!(!s.hidden);
    assert_eq!(s.uuid.len(), 36);
    let t = build_connection_settings("Open", "", true);
    assert!(t.psk.is_none());
    assert!(t.hidden);
    assert_ne!(s.uuid, t.uuid);
}

#[test]
fn retry_then_succeed() {
    let (mut c, first) = StationConnect::new("Home", "pw");
    assert!(matches!(first, ConnectAction::RequestScan));
    let a = c.step(ConnectEvent::ScanFinished { best_ap: None });
    match a {
        ConnectAction::Activate { target, settings } => {
            assert!(matches!(target, ActivationTarget::Any));
            assert!(settings.hidden);
        }
        other => panic!("unexpected {:?}", other),
    }
    assert!(matches!(c.step(ConnectEvent::ActivationRequested { result: Ok(()) }), ConnectAction::PollDeviceState));
    assert!(matches!(c.step(state(40, false)), ConnectAction::PollDeviceState));
    assert!(matches!(c.step(state(40, true)), ConnectAction::Backoff { secs: 3 }));
    assert!(matches!(c.step(ConnectEvent::BackoffElapsed), ConnectAction::RequestScan));
    match c.step(ConnectEvent::ScanFinished { best_ap: Some("/org/freedesktop/NetworkManager/AccessPoint/7".to_string()) }) {
        ConnectAction::Activate { target: ActivationTarget::SpecificAp(p), settings } => {
            assert_eq!(p, "/org/freedesktop/NetworkManager/AccessPoint/7");
            assert!(!settings.hidden);
            assert_eq!(settings.psk.as_deref(), Some("pw"));
        }
        other => panic!("unexpected {:?}", other),
    }
    assert!(matches!(c.step(ConnectEvent::ActivationRequested { result: Ok(()) }), ConnectAction::PollDeviceState));
    assert!(matches!(c.step(state(100, false)), ConnectAction::Finish { result: Ok(()) }));
}

#[test]
fn three_failures_give_consolidated_error() {
    let (mut c, _) = StationConnect::new("Home", "pw");
    for attempt in 1..=3 {
        c.step(ConnectEvent::ScanFinished { best_ap: Some("/ap".to_string()) });
        c.step(ConnectEvent::ActivationRequested { result: Ok(()) });
        let a = c.step(ConnectEvent::DeviceState { state: 120, reason_state: 120, reason_code: 7, past_deadline: false });
        if attempt < 3 {
            assert!(matches!(a, ConnectAction::Backoff { secs: 3 }));
            assert!(matches!(c.step(ConnectEvent::BackoffElapsed), ConnectAction::RequestScan));
        } else {
            match a {
                ConnectAction::Finish { result: Err(e) } => {
                    assert_eq!(e, "Connection failed after 3 attempts: Device activation failed: state=120 reason=7")
                }
                other => panic!("unexpected {:?}", other),
            }
        }
    }
}

#[test]
fn refused_activation_and_timeout_messages() {
    let (mut c, _) = StationConnect::new("Cafe", "");
    c.step(ConnectEvent::ScanFinished { best_ap: None });
    assert!(matches!(c.step(ConnectEvent::ActivationRequested { result: Err("boom".to_string()) }), ConnectAction::Backoff { .. }));
    c.step(ConnectEvent::BackoffElapsed);
    c.step(ConnectEvent::ScanFinished { best_ap: None });
    c.step(ConnectEvent::ActivationRequested { result: Ok(()) });
    c.step(state(30, true));
    c.step(ConnectEvent::BackoffElapsed);
    c.step(ConnectEvent::ScanFinished { best_ap: None });
    c.step(ConnectEvent::ActivationRequested { result: Ok(()) });
    match c.step(state(30, true)) {
        ConnectAction::Finish { result: Err(e) } => assert_eq!(
            e,
            "Connection failed after 3 attempts: Connection timed out waiting for device activation (state=30)"
        ),
        other => panic!("unexpected {:?}", other),
    }
    assert!(!c.accepts(&ConnectEvent::BackoffElapsed));
}

fn entries(p: &[hyper_connect::connector::SettingEntry]) -> Vec<(String, String, String)> {
    p.iter()
        .map(|e| {
            let v = match &e.value {
                SettingValue::Text(t) => format!("text:{}", t),
                SettingValue::Bytes(b) => format!("bytes:{:?}", b),
                SettingValue::Flag(f) => format!("flag:{}", f),
            };
            (e.section.clone(), e.key.clone(), v)
        })
        .collect()
}

#[test]
fn full_profile_for_hidden_secured_network() {
    let s = build_connection_settings("Guest", "letmein", true);
    let got = entries(&connection_profile(&s));
    let t = |a: &str, b: &str, c: String| (a.to_string(), b.to_string(), c);
    assert_eq!(
        got,
        vec![
            t("connection", "type", "text:802-11-wireless".to_string()),
            t("connection", "id", "text:Guest".to_string()),
            t("connection", "uuid", format!("text:{}", s.uuid)),
            t("connection", "autoconnect", "flag:false".to_string()),
            t("802-11-wireless", "ssid", format!("bytes:{:?}", b"Guest".to_vec())),
            t("802-11-wireless", "mode", "text:infrastructure".to_string()),
            t("802-11-wireless", "hidden", "flag:true".to_string()),
            t("ipv4", "method", "text:auto".to_string()),
            t("ipv6", "method", "text:auto".to_string()),
            t("802-11-wireless-security", "key-mgmt", "text:wpa-psk".to_string()),
            t("802-11-wireless-security", "psk", "text:letmein".to_string()),
        ]
    );
}

#[test]
fn open_visible_profile_has_no_security_or_hidden() {
    let s = build_connection_settings("Cafe", "", false);
    let got = entries(&connection_profile(&s));
    assert_eq!(got.len(), 8);
    assert!(got.iter().all(|(sec, key, _)| sec != "802-11-wireless-security" && key != "hidden"));
}
