use hyper_connect::apconfig::{
    backend_from_config, backend_switch_script, dnsmasq_config, hostapd_config, interface_address, BackendError,
    RUNTIME_DIR,
};
use hyper_connect::portal::{
    backend_response, captive_check, connect_response, default_save, html_escape, scan_response, signal_to_bar,
    signal_to_bars, status_detail, status_text, status_tone, CaptiveReply,
};
use hyper_connect::state::{ConnectionStatus, WifiBackend, WifiState, WifiStateSnapshot};

fn snapshot(status: ConnectionStatus) -> WifiStateSnapshot {
    let mut s = WifiStateSnapshot::from_state(&WifiState::new(), 0);
    s.status = status;
    s
}

#[test]
fn escapes_markup() {
    assert_eq!(html_escape("a<b>&\"c'"), "a&lt;b&gt;&amp;&quot;c&#39;");
    assert_eq!(html_escape("plain"), "plain");
    assert_eq!(html_escape("&amp;"), "&amp;amp;");
}

#[test]
fn signal_meters() {
    let html = signal_to_bars(51);
    assert_eq!(
        html,
        "<div class=\"bar filled\" style=\"height: 25%\"></div><div class=\"bar filled\" style=\"height: 50%\"></div><div class=\"bar filled\" style=\"height: 75%\"></div><div class=\"bar\" style=\"height: 100%\"></div>"
    );
    assert_eq!(signal_to_bars(0).matches("filled").count(), 0);
    assert_eq!(signal_to_bar(0), "░░░░");
    assert_eq!(signal_to_bar(25), "█░░░");
    assert_eq!(signal_to_bar(26), "██░░");
    assert_eq!(signal_to_bar(100), "████");
    assert_eq!(signal_to_bar(255), "████");
}

#[test]
fn status_texts() {
    let mut s = snapshot(ConnectionStatus::Connecting);
    assert_eq!(status_text(&s), "Connecting to network...");
    s.connecting_to = Some("Guest".to_string());
    assert_eq!(status_text(&s), "Connecting to Guest...");
    s.status = ConnectionStatus::Connected;
    s.connected_ssid = Some("Guest".to_string());
    assert_eq!(status_text(&s), "Connected to Guest");
    s.status = ConnectionStatus::Failed;
    assert_eq!(status_detail(&s), "An unknown error occurred while connecting.");
    s.last_error = Some("bad password".to_string());
    assert_eq!(status_detail(&s), "bad password");
    assert_eq!(status_tone(ConnectionStatus::SwitchingBackend), "connecting");
    assert_eq!(status_tone(ConnectionStatus::Scanning), "waiting");
    assert_eq!(status_text(&snapshot(ConnectionStatus::AwaitingCredentials)), "Select a network to connect");
}

#[test]
fn captive_probes() {
    assert!(matches!(captive_check(ConnectionStatus::Connected, "192.168.42.1"), CaptiveReply::NoContent));
    match captive_check(ConnectionStatus::AwaitingCredentials, "192.168.42.1") {
        CaptiveReply::Redirect { location } => assert_eq!(location, "http://192.168.42.1/"),
        other => panic!("unexpected {:?}", other),
    }
}

#[test]
fn api_responses() {
    let r = connect_response("Guest", Ok(()));
    assert!(r.success);
    assert_eq!(r.message, "Connecting to Guest...");
    let r = connect_response("Guest", Err("closed".to_string()));
    assert!(!r.success);
    assert_eq!(r.message, "Failed to send command: closed");
    assert_eq!(scan_response(Ok(())).message, "Scan initiated");
    assert_eq!(
        backend_response(WifiBackend::Iwd, Ok(())).message,
        "Switching WiFi backend to iwd. The setup AP may restart; reconnect if needed."
    );
    assert_eq!(backend_response(WifiBackend::Iwd, Err("x".to_string())).message, "Failed to send backend switch command: x");
    assert!(default_save());
}

#[test]
fn helper_configs() {
    assert_eq!(
        hostapd_config("wlan0", "HyperRecovery"),
        "interface=wlan0\ndriver=nl80211\nssid=HyperRecovery\nhw_mode=g\nchannel=6\nwmm_enabled=0\nmacaddr_acl=0\nauth_algs=1\nignore_broadcast_ssid=0\nwpa=0\n"
    );
    assert_eq!(
        dnsmasq_config("wlan0", "10.42.0.1", RUNTIME_DIR).unwrap(),
        "interface=wlan0\nbind-dynamic\ndhcp-leasefile=/run/hyper-connect/dnsmasq.leases\npid-file=/run/hyper-connect/dnsmasq.pid\ndhcp-range=10.42.0.10,10.42.0.250,255.255.255.0,12h\ndhcp-option=option:router,10.42.0.1\ndhcp-option=option:dns-server,10.42.0.1\naddress=/#/10.42.0.1\n"
    );
    assert_eq!(dnsmasq_config("wlan0", "10.42.0", RUNTIME_DIR).unwrap_err().configured, "10.42.0");
    assert_eq!(interface_address("192.168.42.1"), "192.168.42.1/24");
}

#[test]
fn backend_from_printed_config() {
    let lines = |t: &str| t.lines().map(|l| l.to_string()).collect::<Vec<_>>();
    assert_eq!(backend_from_config(&lines("[main]\nplugins=keyfile\n[device]\n  wifi.backend= iwd \n")).unwrap(), WifiBackend::Iwd);
    assert_eq!(backend_from_config(&lines("wifi.backend=wpa_supplicant")).unwrap(), WifiBackend::WpaSupplicant);
    match backend_from_config(&lines("wifi.backend=nl80211\nwifi.backend=iwd")) {
        Err(BackendError::Unknown { value }) => assert_eq!(value, "nl80211"),
        other => panic!("unexpected {:?}", other),
    }
    assert!(matches!(backend_from_config(&lines("[main]")), Err(BackendError::NotFound)));
}

#[test]
fn backend_switch_script_names_backend() {
    let s = backend_switch_script(WifiBackend::WpaSupplicant);
    assert!(s.contains("[device]\nwifi.backend=wpa_supplicant\nEOF"));
    assert!(s.contains("if [ \"wpa_supplicant\" = \"iwd\" ]"));
    assert!(s.ends_with("systemctl restart NetworkManager.service\n"));
    assert_eq!(WifiBackend::Iwd.service_name(), "iwd.service");
    assert_eq!(WifiBackend::Iwd.other(), WifiBackend::WpaSupplicant);
}
