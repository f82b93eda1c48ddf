use host_telemetry::reconcile::{AddrEntry, ip_is_loopback, resolve_addresses};
use host_telemetry::text::normalize_name;

fn entry(name: &str, ip: &str) -> AddrEntry {
    AddrEntry { name: String::from(name), ip: String::from(ip) }
}

fn norm(s: &str) -> String {
    normalize_name(s).into_iter().collect()
}

#[test]
fn normalization_strips_and_lowercases() {
    assert_eq!(norm("Ethernet-0"), "ethernet0");
    assert_eq!(norm("  WLAN 1 "), "wlan1");
    assert_eq!(norm("lo"), "lo");
    assert_eq!(norm("__"), "");
}

#[test]
fn exact_match_takes_only_its_addresses() {
    let entries = vec![entry("eth0", "10.0.0.5"), entry("wlan0", "10.0.0.9")];
    assert_eq!(resolve_addresses("eth0", &entries), vec![String::from("10.0.0.5")]);
    assert_eq!(resolve_addresses("wlan0", &entries), vec![String::from("10.0.0.9")]);
}

#[test]
fn containment_matches_after_normalization() {
    // "Local Area Connection eth0" normalizes to a name that contains
    // "eth0", so the close stage already matches.
    let entries = vec![
        entry("Local Area Connection eth0", "192.168.1.2"),
        entry("wlan0", "10.0.0.9"),
    ];
    assert_eq!(resolve_addresses("eth0", &entries), vec![String::from("192.168.1.2")]);
}

#[test]
fn unmatched_name_falls_back_to_all_non_loopback() {
    // No stage-1 or stage-2 match between "Ethernet0" and eth0/wlan0,
    // so the fallback hands over every address, sorted.
    let entries = vec![entry("eth0", "10.0.0.5"), entry("wlan0", "10.0.0.9")];
    assert_eq!(
        resolve_addresses("Ethernet0", &entries),
        vec![String::from("10.0.0.5"), String::from("10.0.0.9")]
    );
}

#[test]
fn fallback_excludes_loopback_addresses() {
    let entries = vec![
        entry("lo", "127.0.0.1"),
        entry("lo", "::1"),
        entry("eth9", "10.0.0.5"),
    ];
    assert_eq!(resolve_addresses("Ethernet0", &entries), vec![String::from("10.0.0.5")]);
}

#[test]
fn fallback_of_only_loopback_is_empty() {
    let entries = vec![entry("lo", "127.0.0.1"), entry("lo", "::1")];
    let resolved = resolve_addresses("Ethernet0", &entries);
    assert!(resolved.is_empty());
}

#[test]
fn result_is_sorted_and_deduplicated() {
    let entries = vec![
        entry("x1", "10.0.0.9"),
        entry("x2", "10.0.0.5"),
        entry("x3", "10.0.0.9"),
        entry("x4", "10.0.0.10"),
    ];
    assert_eq!(
        resolve_addresses("Ethernet0", &entries),
        vec![
            String::from("10.0.0.10"),
            String::from("10.0.0.5"),
            String::from("10.0.0.9"),
        ]
    );
}

#[test]
fn substring_match_keeps_fallback_out() {
    // "myeth" contains "eth", so the close stage matches and the
    // non-loopback fallback never runs for the other entry.
    let entries = vec![entry("myeth", "172.16.0.2"), entry("zzz", "172.16.0.3")];
    assert_eq!(resolve_addresses("eth", &entries), vec![String::from("172.16.0.2")]);
}

#[test]
fn loopback_test_matches_spec() {
    assert!(ip_is_loopback(&String::from("127.0.0.1")));
    assert!(ip_is_loopback(&String::from("127.5.4.3")));
    assert!(ip_is_loopback(&String::from("::1")));
    assert!(!ip_is_loopback(&String::from("10.0.0.5")));
    assert!(!ip_is_loopback(&String::from("128.0.0.1")));
}
