use hyper_connect::ap::{ApAction, ApEvent, ApStartup};
use hyper_connect::connector::use_legacy_activation;
use hyper_connect::state::WifiBackend;

fn to_beacon(s: &mut ApStartup, ssid: &str, subnet: &str, ip: &str) {
    assert!(matches!(s.step(ApEvent::Completed), ApAction::StopBackendService { .. }));
    assert!(matches!(s.step(ApEvent::Completed), ApAction::AwaitBackendStopped { timeout_secs: 6, .. }));
    assert!(matches!(s.step(ApEvent::Awaited { ok: true }), ApAction::AwaitStationDisconnected { timeout_secs: 6 }));
    assert!(matches!(s.step(ApEvent::Awaited { ok: true }), ApAction::ResetInterface));
    match s.step(ApEvent::Completed) {
        ApAction::WriteConfigs { hostapd, dnsmasq } => {
            assert!(hostapd.starts_with(&format!("interface=wlan0\ndriver=nl80211\nssid={}\n", ssid)));
            assert!(dnsmasq.contains(&format!("dhcp-range={}.10,{}.250,255.255.255.0,12h\n", subnet, subnet)));
            assert!(dnsmasq.contains(&format!("address=/#/{}\n", ip)));
        }
        other => panic!("unexpected {:?}", other),
    }
    assert!(matches!(s.step(ApEvent::Completed), ApAction::StartBeacon { settle_ms: 2000 }));
}

#[test]
fn access_point_comes_up_in_order() {
    let (mut s, first) = ApStartup::new("wlan0", "HyperRecovery", "192.168.42.1", WifiBackend::Iwd);
    assert!(matches!(first, ApAction::ReleaseDevice));
    to_beacon(&mut s, "HyperRecovery", "192.168.42", "192.168.42.1");
    match s.step(ApEvent::Started { exit_status: None }) {
        ApAction::AssignAddress { address } => assert_eq!(address, "192.168.42.1/24"),
        other => panic!("unexpected {:?}", other),
    }
    assert!(matches!(s.step(ApEvent::Completed), ApAction::AwaitAddress { timeout_secs: 5 }));
    assert!(matches!(s.step(ApEvent::Awaited { ok: true }), ApAction::StartDhcp { settle_ms: 500 }));
    assert!(matches!(s.step(ApEvent::Started { exit_status: None }), ApAction::Finish { result: Ok(()) }));
}

#[test]
fn beacon_early_exit_rolls_back() {
    let (mut s, _) = ApStartup::new("wlan0", "HyperRecovery", "192.168.42.1", WifiBackend::Iwd);
    to_beacon(&mut s, "HyperRecovery", "192.168.42", "192.168.42.1");
    assert!(matches!(s.step(ApEvent::Started { exit_status: Some("exit status: 1".to_string()) }), ApAction::RollBack { .. }));
    assert!(!s.accepts(&ApEvent::Awaited { ok: true }));
    match s.step(ApEvent::Completed) {
        ApAction::Finish { result: Err(e) } => assert_eq!(e, "hostapd exited early with status: exit status: 1"),
        other => panic!("unexpected {:?}", other),
    }
}

#[test]
fn release_timeouts_and_bad_address_fail() {
    let (mut s, _) = ApStartup::new("wlan0", "X", "192.168.42.1", WifiBackend::Iwd);
    s.step(ApEvent::Completed);
    s.step(ApEvent::Completed);
    assert!(matches!(s.step(ApEvent::Awaited { ok: false }), ApAction::RollBack { .. }));
    match s.step(ApEvent::Completed) {
        ApAction::Finish { result: Err(e) } => assert_eq!(e, "Timed out waiting for systemd unit iwd.service to stop"),
        other => panic!("unexpected {:?}", other),
    }
    let (mut s, _) = ApStartup::new("wlan0", "X", "not-an-ip", WifiBackend::Iwd);
    s.step(ApEvent::Completed);
    s.step(ApEvent::Completed);
    s.step(ApEvent::Awaited { ok: true });
    s.step(ApEvent::Awaited { ok: true });
    assert!(matches!(s.step(ApEvent::Completed), ApAction::RollBack { .. }));
    match s.step(ApEvent::Completed) {
        ApAction::Finish { result: Err(e) } => assert_eq!(e, "Invalid AP IP address: 'not-an-ip'"),
        other => panic!("unexpected {:?}", other),
    }
}

#[test]
fn address_timeout_and_dhcp_exit_fail() {
    let (mut s, _) = ApStartup::new("wlan0", "X", "10.42.0.1", WifiBackend::Iwd);
    to_beacon(&mut s, "X", "10.42.0", "10.42.0.1");
    s.step(ApEvent::Started { exit_status: None });
    s.step(ApEvent::Completed);
    assert!(matches!(s.step(ApEvent::Awaited { ok: false }), ApAction::RollBack { .. }));
    match s.step(ApEvent::Completed) {
        ApAction::Finish { result: Err(e) } => assert_eq!(e, "Timed out waiting for IP 10.42.0.1 to be assigned to wlan0"),
        other => panic!("unexpected {:?}", other),
    }
    let (mut s, _) = ApStartup::new("wlan0", "X", "10.42.0.1", WifiBackend::Iwd);
    to_beacon(&mut s, "X", "10.42.0", "10.42.0.1");
    s.step(ApEvent::Started { exit_status: None });
    s.step(ApEvent::Completed);
    s.step(ApEvent::Awaited { ok: true });
    assert!(matches!(s.step(ApEvent::Started { exit_status: Some("signal: 9".to_string()) }), ApAction::RollBack { .. }));
    match s.step(ApEvent::Completed) {
        ApAction::Finish { result: Err(e) } => assert_eq!(e, "dnsmasq exited early with status: signal: 9"),
        other => panic!("unexpected {:?}", other),
    }
}

#[test]
fn legacy_activation_only_for_unknown_method() {
    assert!(use_legacy_activation("org.freedesktop.DBus.Error.UnknownMethod"));
    assert!(!use_legacy_activation("org.freedesktop.NetworkManager.Device.Error"));
}

#[test]
fn backend_unit_is_stopped_and_restored() {
    let (mut s, _) = ApStartup::new("wlan0", "X", "10.42.0.1", WifiBackend::WpaSupplicant);
    match s.step(ApEvent::Completed) {
        ApAction::StopBackendService { unit } => assert_eq!(unit, "wpa_supplicant.service"),
        other => panic!("unexpected {:?}", other),
    }
    match s.step(ApEvent::Completed) {
        ApAction::AwaitBackendStopped { unit, timeout_secs } => {
            assert_eq!(unit, "wpa_supplicant.service");
            assert_eq!(timeout_secs, 6);
        }
        other => panic!("unexpected {:?}", other),
    }
    match s.step(ApEvent::Awaited { ok: false }) {
        ApAction::RollBack { unit } => assert_eq!(unit, "wpa_supplicant.service"),
        other => panic!("unexpected {:?}", other),
    }
    match s.step(ApEvent::Completed) {
        ApAction::Finish { result: Err(e) } => assert_eq!(e, "Timed out waiting for systemd unit wpa_supplicant.service to stop"),
        other => panic!("unexpected {:?}", other),
    }
}
