use hyper_connect::subnet::{
    address_assigned, ap_ip_candidate, choose_auto_ap_ip, format_ipv4, occupied_prefixes, prefix_of_address_token, resolve_ap_ip,
};

fn tokens(line: &str) -> Vec<String> {
    line.split_whitespace().map(|t| t.to_string()).collect()
}

#[test]
fn subnet_conflict_moves_to_next_candidate() {
    assert_eq!(resolve_ap_ip("auto", &[(192, 168, 42)]).unwrap(), "10.42.0.1");
    assert_eq!(resolve_ap_ip("auto", &[]).unwrap(), "192.168.42.1");
    assert_eq!(resolve_ap_ip("auto", &[(192, 168, 42), (10, 42, 0), (172, 20, 42)]).unwrap(), "192.168.88.1");
}

#[test]
fn all_candidates_taken_falls_back_to_first() {
    let all = [(192, 168, 42), (10, 42, 0), (172, 20, 42), (192, 168, 88), (10, 123, 0)];
    assert_eq!(resolve_ap_ip("Auto", &all).unwrap(), "192.168.42.1");
    assert_eq!(choose_auto_ap_ip(&all), (192, 168, 42, 1));
    assert_eq!(ap_ip_candidate(4), (10, 123, 0, 1));
}

#[test]
fn explicit_address_is_validated() {
    assert_eq!(resolve_ap_ip(" 10.0.0.1 ", &[]).unwrap(), "10.0.0.1");
    assert_eq!(resolve_ap_ip("192.168.42.1", &[(192, 168, 42)]).unwrap(), "192.168.42.1");
    assert_eq!(resolve_ap_ip("300.1.1.1", &[]).unwrap_err().configured, "300.1.1.1");
    assert!(resolve_ap_ip("10.0.0", &[]).is_err());
    assert!(resolve_ap_ip("", &[]).is_err());
    assert!(resolve_ap_ip("010.0.0.1", &[]).is_err());
}

#[test]
fn ipv4_formatting() {
    assert_eq!(format_ipv4((0, 0, 0, 0)), "0.0.0.0");
    assert_eq!(format_ipv4((255, 10, 7, 100)), "255.10.7.100");
}

#[test]
fn address_tokens_give_prefixes() {
    assert_eq!(prefix_of_address_token("192.168.42.5/24"), Some((192, 168, 42)));
    assert_eq!(prefix_of_address_token("192.168.42.5"), None);
    assert_eq!(prefix_of_address_token("fe80::1/64"), None);
    assert_eq!(prefix_of_address_token("/24"), None);
}

#[test]
fn address_listing_gives_first_prefix_per_line() {
    let lines = vec![
        tokens("1: lo    inet 127.0.0.1/8 scope host lo"),
        tokens("3: wlan0    inet 192.168.42.5/24 brd 192.168.42.255 scope global wlan0"),
        tokens("4: eth0    inet 10.1.2.3/16 brd 10.1.255.255 scope global eth0 peer 10.9.9.9/32"),
        tokens("garbage line"),
    ];
    let found = occupied_prefixes(&lines);
    assert_eq!(found, vec![(127, 0, 0), (192, 168, 42), (10, 1, 2)]);
    assert_eq!(resolve_ap_ip("auto", &found).unwrap(), "10.42.0.1");
}

#[test]
fn address_assignment_needs_exact_address() {
    let lines = vec![tokens("3: wlan0    inet 192.168.42.10/24 brd 192.168.42.255 scope global wlan0")];
    assert!(!address_assigned(&lines, "192.168.42.1"));
    assert!(address_assigned(&lines, "192.168.42.10"));
    assert!(!address_assigned(&Vec::new(), "192.168.42.1"));
}
