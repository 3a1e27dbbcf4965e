use hyper_connect::scan::{
    classify_security, find_best_ap_for_ssid, frequency_to_channel, is_secured, merge_scan_results,
    network_from_reading, scan_result_from_readings, split_escaped_fields, AccessPointReading,
};
use hyper_connect::state::NetworkInfo;

fn net(ssid: &str, signal: u8) -> NetworkInfo {
    NetworkInfo {
        ssid: ssid.to_string(),
        bssid: format!("bssid-{}-{}", ssid, signal),
        signal_strength: signal,
        frequency: 2412,
        channel: 1,
        is_secured: false,
        security_type: "Open".to_string(),
    }
}

fn ap(ssid: &str, strength: u8, freq: u32, flags: u32, wpa: u32, rsn: u32) -> AccessPointReading {
    AccessPointReading {
        ssid: ssid.to_string(),
        bssid: format!("{}:{}", ssid, strength),
        strength,
        frequency: freq,
        flags,
        wpa_flags: wpa,
        rsn_flags: rsn,
    }
}

#[test]
fn splits_nmcli_line_with_escaped_separator() {
    let line = "My\\|SSID|76\\:d1\\:a9\\:a1\\:32\\:d1|88|2412|1|WPA2";
    let fields = split_escaped_fields(line, '|');

    assert_eq!(fields.len(), 6);
    assert_eq!(fields[0], "My|SSID");
    assert_eq!(fields[1], "76:d1:a9:a1:32:d1");
    assert_eq!(fields[2], "88");
}

#[test]
fn split_keeps_trailing_backslash_and_empty_fields() {
    assert_eq!(split_escaped_fields("a||b\\", '|'), vec!["a", "", "b\\"]);
    assert_eq!(split_escaped_fields("", '|'), vec![""]);
    assert_eq!(split_escaped_fields("x\\\\y", '|'), vec!["x\\y"]);
}

#[test]
fn channel_from_frequency() {
    assert_eq!(frequency_to_channel(2412), 1);
    assert_eq!(frequency_to_channel(2437), 6);
    assert_eq!(frequency_to_channel(2472), 13);
    assert_eq!(frequency_to_channel(2484), 14);
    assert_eq!(frequency_to_channel(5180), 36);
    assert_eq!(frequency_to_channel(5900), 180);
    assert_eq!(frequency_to_channel(2411), 0);
    assert_eq!(frequency_to_channel(5901), 0);
    assert_eq!(frequency_to_channel(0), 0);
}

#[test]
fn security_classes() {
    assert_eq!(classify_security(0, 1, 1), "WPA/WPA2");
    assert_eq!(classify_security(1, 0, 8), "WPA2/WPA3");
    assert_eq!(classify_security(0, 4, 0), "WPA");
    assert_eq!(classify_security(1, 0, 0), "WEP/Protected");
    assert_eq!(classify_security(2, 0, 0), "Open");
    assert!(is_secured(1, 0, 0));
    assert!(is_secured(0, 0, 2));
    assert!(!is_secured(2, 0, 0));
}

#[test]
fn merge_dedups_keeps_strongest_and_sorts() {
    let readings = vec![net("A", 40), net("B", 70), net("A", 80), net("C", 70), net("B", 60)];
    let merged = merge_scan_results(&readings);
    let view: Vec<(&str, u8)> = merged.iter().map(|n| (n.ssid.as_str(), n.signal_strength)).collect();
    assert_eq!(view.len(), 3);
    assert_eq!(view[0], ("A", 80));
    assert!(view[1..].contains(&("B", 70)));
    assert!(view[1..].contains(&("C", 70)));
    for w in merged.windows(2) {
        assert!(w[0].signal_strength >= w[1].signal_strength);
    }
    assert!(merge_scan_results(&Vec::new()).is_empty());
}

#[test]
fn scan_result_from_readings_drops_hidden_and_classifies() {
    let aps = vec![
        ap("Guest", 90, 2437, 0, 0, 0),
        ap("", 99, 2412, 1, 0, 0),
        ap("Home", 50, 5180, 1, 0, 0x100),
        ap("Home", 60, 2462, 1, 0, 0x100),
    ];
    let nets = scan_result_from_readings(&aps);
    assert_eq!(nets.len(), 2);
    assert_eq!(nets[0].ssid, "Guest");
    assert_eq!(nets[0].channel, 6);
    assert!(!nets[0].is_secured);
    assert_eq!(nets[0].security_type, "Open");
    assert_eq!(nets[1].ssid, "Home");
    assert_eq!(nets[1].signal_strength, 60);
    assert_eq!(nets[1].channel, 11);
    assert_eq!(nets[1].security_type, "WPA2/WPA3");
    assert!(nets[1].is_secured);
    assert!(network_from_reading(&ap("", 10, 2412, 0, 0, 0)).is_none());
}

#[test]
fn best_ap_is_first_strongest_match() {
    let aps = vec![
        ap("Other", 99, 2412, 0, 0, 0),
        ap("Net", 40, 2412, 0, 0, 0),
        ap("Net", 70, 2412, 0, 0, 0),
        ap("Net", 70, 2437, 0, 0, 0),
    ];
    assert_eq!(find_best_ap_for_ssid(&aps, "Net"), Some(2));
    assert_eq!(find_best_ap_for_ssid(&aps, "Missing"), None);
    assert_eq!(find_best_ap_for_ssid(&aps, ""), None);
}
