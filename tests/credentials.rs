use hyper_connect::credentials::{default_version, CredentialsStore, SavedCredential};
use hyper_connect::state::NetworkInfo;

fn net(ssid: &str, signal: u8) -> NetworkInfo {
    NetworkInfo {
        ssid: ssid.to_string(),
        bssid: String::new(),
        signal_strength: signal,
        frequency: 2437,
        channel: 6,
        is_secured: true,
        security_type: "WPA2/WPA3".to_string(),
    }
}

#[test]
fn test_update_credential() {
    let mut store = CredentialsStore::default();
    store.save_credential("TestNetwork", "password1");
    store.save_credential("TestNetwork", "password2");

    assert_eq!(store.get_password("TestNetwork"), Some("password2"));
    assert_eq!(store.networks.get("TestNetwork").unwrap().success_count, 2);
}

#[test]
fn new_store_is_empty_with_current_version() {
    let store = CredentialsStore::default();
    assert_eq!(store.version, 1);
    assert_eq!(default_version(), 1);
    assert_eq!(store.networks.len(), 0);
    assert_eq!(store.get_password("x"), None);
}

#[test]
fn save_credential_stamps_time_and_counts() {
    let mut store = CredentialsStore::default();
    store.save_credential_at("Cafe", "latte", 1000);
    let c = store.networks.get("Cafe").unwrap();
    assert_eq!(c.ssid, "Cafe");
    assert_eq!(c.password, "latte");
    assert_eq!(c.last_used, Some(1000));
    assert_eq!(c.success_count, 1);
    store.save_credential_at("Cafe", "mocha", 2000);
    let c = store.networks.get("Cafe").unwrap();
    assert_eq!(c.password, "mocha");
    assert_eq!(c.last_used, Some(2000));
    assert_eq!(c.success_count, 2);
    assert_eq!(store.networks.len(), 1);
}

#[test]
fn save_credential_uses_the_clock() {
    let mut store = CredentialsStore::default();
    store.save_credential("Home", "pw");
    let c = store.networks.get("Home").unwrap();
    assert!(c.last_used.unwrap() > 1_600_000_000);
}

#[test]
fn success_count_holds_at_maximum() {
    let store0 = CredentialsStore::from_records(1, vec![SavedCredential {
        ssid: "Max".to_string(),
        password: "p".to_string(),
        last_used: None,
        success_count: u32::MAX,
    }]);
    let mut store = store0;
    store.save_credential_at("Max", "p", 5);
    assert_eq!(store.networks.get("Max").unwrap().success_count, u32::MAX);
}

#[test]
fn remove_and_has_credentials() {
    let mut store = CredentialsStore::default();
    store.save_credential_at("A", "1", 1);
    store.save_credential_at("B", "2", 1);
    assert!(store.has_credentials("A"));
    assert!(store.remove_credential("A"));
    assert!(!store.has_credentials("A"));
    assert!(!store.remove_credential("A"));
    assert!(store.has_credentials("B"));
    assert_eq!(store.networks.len(), 1);
}

#[test]
fn find_known_networks_keeps_order() {
    let mut store = CredentialsStore::default();
    store.save_credential_at("B", "2", 1);
    store.save_credential_at("D", "4", 1);
    let available = vec![net("A", 90), net("B", 80), net("C", 70), net("D", 60)];
    let known = store.find_known_networks(&available);
    let names: Vec<&str> = known.iter().map(|n| n.ssid.as_str()).collect();
    assert_eq!(names, vec!["B", "D"]);
}

#[test]
fn best_known_network_prefers_signal_then_successes() {
    let mut store = CredentialsStore::default();
    store.save_credential_at("Weak", "w", 1);
    store.save_credential_at("Strong", "s", 1);
    store.save_credential_at("Tie", "t", 1);
    store.save_credential_at("Tie", "t", 2);
    let available = vec![net("Weak", 30), net("Other", 99), net("Strong", 70), net("Tie", 70)];
    assert_eq!(store.best_known_network(&available).unwrap().ssid, "Tie");
    let available = vec![net("Weak", 30), net("Other", 99)];
    assert_eq!(store.best_known_network(&available).unwrap().ssid, "Weak");
    let available = vec![net("Other", 99)];
    assert!(store.best_known_network(&available).is_none());
}

#[test]
fn auto_connect_with_saved_credentials_scenario() {
    let mut store = CredentialsStore::from_records(1, vec![SavedCredential {
        ssid: "HomeWiFi".to_string(),
        password: "hunter22".to_string(),
        last_used: Some(10),
        success_count: 3,
    }]);
    let scan = vec![net("HomeWiFi", 78), net("Cafe", 55)];
    let best = store.best_known_network(&scan).unwrap();
    assert_eq!(best.ssid, "HomeWiFi");
    assert_eq!(store.get_password("HomeWiFi"), Some("hunter22"));
    store.save_credential_at("HomeWiFi", "hunter22", 500);
    let c = store.networks.get("HomeWiFi").unwrap();
    assert_eq!(c.success_count, 4);
    assert_eq!(c.last_used, Some(500));
}

#[test]
fn records_round_trip_keeps_mapping() {
    let mut store = CredentialsStore::default();
    store.save_credential_at("A", "1", 1);
    store.save_credential_at("B", "2", 2);
    store.save_credential_at("A", "3", 3);
    let records = store.networks.to_records();
    assert_eq!(records.len(), 2);
    let back = CredentialsStore::from_records(store.version, records);
    assert_eq!(back.version, 1);
    assert_eq!(back.get_password("A"), Some("3"));
    assert_eq!(back.get_password("B"), Some("2"));
    assert_eq!(back.networks.get("A").unwrap().success_count, 2);
    assert_eq!(back.networks.len(), 2);
}

#[test]
fn from_records_later_record_wins() {
    let mk = |p: &str| SavedCredential { ssid: "X".to_string(), password: p.to_string(), last_used: None, success_count: 1 };
    let store = CredentialsStore::from_records(1, vec![mk("first"), mk("second")]);
    assert_eq!(store.get_password("X"), Some("second"));
    assert_eq!(store.networks.len(), 1);
    assert!(store.networks.is_well_formed());
}
