use hyper_connect::resolver::{
    choose_auto_interface, describe_pci_device, is_auto_text, is_unbound_wireless_pci, resolve_wireless_interface,
    InterfaceError, WirelessInterface,
};

fn iface(name: &str, bound: bool, hint: &str) -> WirelessInterface {
    WirelessInterface { name: name.to_string(), driver_bound: bound, device_hint: hint.to_string() }
}

#[test]
fn auto_picks_first_bound_by_name() {
    let ifs = vec![iface("wlp3s0", true, "0000:03:00.0"), iface("p2p-dev-wlan0", true, "x"), iface("wlan0", true, "y")];
    assert_eq!(resolve_wireless_interface("auto", &ifs, &[]).unwrap(), "wlan0");
    assert_eq!(resolve_wireless_interface("  AUTO ", &ifs, &[]).unwrap(), "wlan0");
    assert_eq!(resolve_wireless_interface("", &ifs, &[]).unwrap(), "wlan0");
    assert_eq!(choose_auto_interface(&ifs, &[]).unwrap(), "wlan0");
}

#[test]
fn auto_skips_p2p_only() {
    let ifs = vec![iface("p2p-dev-wlan0", true, "x")];
    let err = resolve_wireless_interface("auto", &ifs, &[]).unwrap_err();
    assert!(matches!(err, InterfaceError::NoneDetected { configured: None }));
    assert_eq!(err.message(), "No usable wireless interfaces detected");
}

#[test]
fn explicit_bound_interface_is_used() {
    let ifs = vec![iface("wlan0", true, "a"), iface("wlan1", true, "b")];
    assert_eq!(resolve_wireless_interface(" wlan1\n", &ifs, &[]).unwrap(), "wlan1");
}

#[test]
fn explicit_interface_without_driver_names_hint() {
    let ifs = vec![iface("wlan0", false, "0000:02:00.0"), iface("wlan1", true, "b")];
    let err = resolve_wireless_interface("wlan0", &ifs, &[]).unwrap_err();
    match &err {
        InterfaceError::DriverNotBound { name, device_hint } => {
            assert_eq!(name, "wlan0");
            assert_eq!(device_hint, "0000:02:00.0");
        }
        other => panic!("unexpected {:?}", other),
    }
    assert!(err.message().contains("0000:02:00.0"));
    assert!(err.message().contains("no kernel driver is bound"));
}

#[test]
fn missing_interface_falls_back_to_single_viable() {
    let ifs = vec![iface("wlan0", true, "a"), iface("wlan9", false, "b")];
    assert_eq!(resolve_wireless_interface("wlx000", &ifs, &[]).unwrap(), "wlan0");
}

#[test]
fn missing_interface_with_several_viable_lists_them() {
    let ifs = vec![iface("wlan1", true, "a"), iface("wlan0", true, "b")];
    let err = resolve_wireless_interface("wlx000", &ifs, &[]).unwrap_err();
    match &err {
        InterfaceError::NotFound { configured, detected } => {
            assert_eq!(configured, "wlx000");
            assert_eq!(detected, &vec!["wlan1".to_string(), "wlan0".to_string()]);
        }
        other => panic!("unexpected {:?}", other),
    }
    assert_eq!(
        err.message(),
        "Configured interface 'wlx000' was not found. Detected wireless interfaces: wlan1, wlan0. Set --interface explicitly or use --interface auto."
    );
}

#[test]
fn only_driverless_interfaces_are_reported_with_hints() {
    let ifs = vec![iface("wlan0", false, "0000:02:00.0")];
    let err = resolve_wireless_interface("auto", &ifs, &[]).unwrap_err();
    assert_eq!(
        err.message(),
        "Wireless interface(s) detected but no kernel driver is bound: wlan0 (0000:02:00.0). This usually indicates missing firmware or driver support."
    );
    let err = resolve_wireless_interface("wlx", &ifs, &[]).unwrap_err();
    assert!(matches!(err, InterfaceError::NoDriverBound { configured: Some(_), .. }));
}

#[test]
fn hardware_gate_reports_pci_adapter() {
    assert!(is_unbound_wireless_pci("0x028000\n", false));
    assert!(!is_unbound_wireless_pci("0x028000\n", true));
    assert!(!is_unbound_wireless_pci("0x020000\n", false));
    let device = describe_pci_device("0000:02:00.0", "0x8086\n", " 0x2723\n");
    assert_eq!(device, "0000:02:00.0 (vendor 0x8086, device 0x2723)");
    let err = resolve_wireless_interface("auto", &[], &[device.clone()]).unwrap_err();
    match &err {
        InterfaceError::MissingFirmware { configured, devices } => {
            assert!(configured.is_none());
            assert_eq!(devices, &vec![device.clone()]);
        }
        other => panic!("unexpected {:?}", other),
    }
    let msg = err.message();
    assert!(msg.contains("0000:02:00.0 (vendor 0x8086, device 0x2723)"));
    assert!(msg.contains("firmware"));
    let err = resolve_wireless_interface("wlan0", &[], &[]).unwrap_err();
    assert_eq!(err.message(), "Configured interface 'wlan0' was not found and no wireless interfaces were detected");
}

#[test]
fn auto_word_in_any_case() {
    assert!(is_auto_text("auto"));
    assert!(is_auto_text("AuTo"));
    assert!(!is_auto_text("autos"));
    assert!(!is_auto_text("aut0"));
}

#[test]
fn surrounding_unicode_whitespace_is_ignored() {
    let ifs = vec![iface("wlan0", true, "a"), iface("wlan1", true, "b")];
    assert_eq!(resolve_wireless_interface("\u{3000}wlan1\u{a0}\t", &ifs, &[]).unwrap(), "wlan1");
}
