use desk_switch::config::Config;
use desk_switch::discovery::{
    choose_connect_ip, find_peer, is_preferred_lan_ip, new_peer_map, pick_local_ip, PeerInfo,
    PeerTable, PEER_TIMEOUT_MS,
};
use desk_switch::ipv4::{broadcast_addresses, parse_ipv4, subnet_broadcast};
use desk_switch::protocol::{is_valid_role_name, switched_role_name, DiscoveryPacket, Role};
use desk_switch::service::Service;

#[test]
fn dotted_quads() {
    assert_eq!(parse_ipv4("192.168.1.42"), Some([192, 168, 1, 42]));
    assert_eq!(parse_ipv4("0.0.0.0"), Some([0, 0, 0, 0]));
    assert_eq!(parse_ipv4("255.255.255.255"), Some([255, 255, 255, 255]));
    for bad in ["256.1.1.1", "01.2.3.4", "1.2.3", "1.2.3.4.5", "1..2.3", "", "a.b.c.d", " 1.2.3.4", "1.2.3.4 ", "1.2.3.0004", "+1.2.3.4", "1.2.3.4."] {
        assert_eq!(parse_ipv4(bad), None, "{bad}");
    }
}

#[test]
fn dotted_quads_more_cases() {
    assert_eq!(parse_ipv4("10.0.0.1"), Some([10, 0, 0, 1]));
    assert_eq!(parse_ipv4("100.200.250.255"), Some([100, 200, 250, 255]));
    for bad in ["10.0.0.01", "172.16.5.300", "1.1.1", "9.9.9.9.", "00.0.0.0"] {
        assert_eq!(parse_ipv4(bad), None, "{bad}");
    }
}

#[test]
fn broadcast_targets() {
    assert_eq!(subnet_broadcast("192.168.1.42"), [192, 168, 1, 255]);
    assert_eq!(subnet_broadcast("not an address"), [255, 255, 255, 255]);
    assert_eq!(broadcast_addresses("10.1.2.3"), vec![[255, 255, 255, 255], [10, 1, 2, 255]]);
    assert_eq!(broadcast_addresses("bogus"), vec![[255, 255, 255, 255]]);
    assert_eq!(broadcast_addresses("255.255.255.7"), vec![[255, 255, 255, 255]]);
}

#[test]
fn lan_preference() {
    assert!(is_preferred_lan_ip("192.168.0.5"));
    assert!(is_preferred_lan_ip("10.8.0.1"));
    assert!(!is_preferred_lan_ip("172.16.0.1"));
    assert!(!is_preferred_lan_ip("100.10.0.1"));
    assert_eq!(choose_connect_ip("172.20.0.2", "192.168.1.9"), "192.168.1.9");
    assert_eq!(choose_connect_ip("10.0.0.7", "192.168.1.9"), "10.0.0.7");
    assert_eq!(choose_connect_ip("172.20.0.2", "100.64.0.1"), "172.20.0.2");
}

#[test]
fn local_ip_choice() {
    assert_eq!(pick_local_ip(&vec![]), "127.0.0.1");
    assert_eq!(pick_local_ip(&vec!["172.16.0.3".to_string()]), "172.16.0.3");
    assert_eq!(
        pick_local_ip(&vec!["172.16.0.3".to_string(), "192.168.1.4".to_string(), "10.0.0.2".to_string()]),
        "192.168.1.4"
    );
}

fn packet(host: &str, ip: &str, role: Role) -> DiscoveryPacket {
    DiscoveryPacket::announce(host, ip, role, 9876)
}

#[test]
fn announce_packet() {
    let p = packet("mac", "192.168.1.10", Role::Display);
    assert_eq!(p.hostname, "mac");
    assert_eq!(p.ip, "192.168.1.10");
    assert_eq!(p.role, "display");
    assert_eq!(p.version, 1);
    assert_eq!(p.stream_port, 9876);
}

#[test]
fn own_announcements_are_ignored() {
    let mut t = new_peer_map();
    assert_eq!(t.observe("192.168.1.2", "192.168.1.2", &packet("me", "192.168.1.9", Role::Primary), 0), None);
    assert_eq!(t.observe("192.168.1.2", "192.168.1.5", &packet("me", "192.168.1.2", Role::Primary), 0), None);
    assert_eq!(t.len(), 0);
}

#[test]
fn announcements_are_recorded_once_per_address() {
    let mut t = PeerTable::new();
    assert_eq!(t.observe("192.168.1.2", "192.168.1.5", &packet("win", "172.17.0.1", Role::Display), 100), Some(true));
    assert_eq!(t.observe("192.168.1.2", "192.168.1.5", &packet("win", "172.17.0.1", Role::Primary), 200), Some(false));
    assert_eq!(t.len(), 1);
    let p = t.get("192.168.1.5").unwrap();
    assert_eq!(p.hostname, "win");
    assert_eq!(p.role, "primary");
    assert_eq!(p.stream_port, 9876);
    assert_eq!(p.last_seen_ms, 200);
    assert!(t.get("172.17.0.1").is_none());
}

#[test]
fn reported_lan_address_is_preferred() {
    let mut t = PeerTable::new();
    t.observe("192.168.1.2", "100.64.3.3", &packet("vpn", "10.0.0.4", Role::Primary), 0);
    assert!(t.get("10.0.0.4").is_some());
}

#[test]
fn stale_peers_expire() {
    let mut t = PeerTable::new();
    t.observe("192.168.1.2", "192.168.1.5", &packet("a", "192.168.1.5", Role::Display), 0);
    t.observe("192.168.1.2", "192.168.1.6", &packet("b", "192.168.1.6", Role::Display), 5000);
    t.expire(PEER_TIMEOUT_MS - 1);
    assert_eq!(t.len(), 2);
    t.expire(PEER_TIMEOUT_MS);
    assert_eq!(t.len(), 1);
    assert!(t.get("192.168.1.6").is_some());
    // An announcement also drops the stale entries.
    t.observe("192.168.1.2", "192.168.1.7", &packet("c", "192.168.1.7", Role::Idle), 20000);
    assert_eq!(t.len(), 1);
    assert!(t.get("192.168.1.7").is_some());
    t.expire(20000);
    assert_eq!(t.len(), 1);
}

#[test]
fn peer_choice_prefers_primary() {
    let mut t = PeerTable::new();
    assert!(find_peer(&t).is_none());
    t.observe("192.168.1.2", "192.168.1.5", &packet("disp", "192.168.1.5", Role::Display), 0);
    assert_eq!(t.find_peer().unwrap().hostname, "disp");
    t.observe("192.168.1.2", "192.168.1.6", &packet("prim", "192.168.1.6", Role::Primary), 0);
    assert_eq!(find_peer(&t).unwrap().hostname, "prim");
}

#[test]
fn manual_peer() {
    let mut t = PeerTable::new();
    t.add_manual("192.168.1.42", 9876, 7);
    let p = t.get("192.168.1.42").unwrap();
    assert_eq!(p.hostname, "manual (192.168.1.42)");
    assert_eq!(p.role, "primary");
    assert_eq!(p.display_name(), "manual (192.168.1.42) (192.168.1.42)");
}

#[test]
fn peer_clone_is_equal() {
    let p = PeerInfo { hostname: "h".to_string(), ip: "1".to_string(), role: "idle".to_string(), stream_port: 1, last_seen_ms: 2 };
    let q = p.clone();
    assert_eq!(q.hostname, "h");
    assert_eq!(q.last_seen_ms, 2);
}

#[test]
fn role_names() {
    assert_eq!(Role::Idle.name(), "idle");
    assert_eq!(Role::Primary.to_string(), "primary");
    assert_eq!(Role::Display.name(), "display");
    for r in [Role::Idle, Role::Primary, Role::Display] {
        assert_eq!(Role::from_config_name(r.name()), r);
        assert!(is_valid_role_name(r.name()));
        assert_ne!(r.switched(), Role::Idle);
        assert_eq!(switched_role_name(r.name()), r.switched().name());
    }
    assert_eq!(Role::from_config_name("Primary"), Role::Idle);
    assert!(!is_valid_role_name("PRIMARY"));
    assert_eq!(switched_role_name("nonsense"), "primary");
    assert_eq!(Role::Primary.switched().switched(), Role::Primary);
}

#[test]
fn service_roles() {
    let mut c = Config::with_identity("h".to_string(), "k".to_string());
    c.set_field("default_role", "display").unwrap();
    let mut s = Service::new(c);
    assert_eq!(s.current_role(), Role::Display);
    assert!(s.is_running());
    s.switch_role();
    assert_eq!(s.current_role(), Role::Primary);
    s.switch_role();
    assert_eq!(s.current_role(), Role::Display);
    s.set_role(Role::Idle);
    assert_eq!(s.current_role(), Role::Idle);
    s.switch_role();
    assert_eq!(s.current_role(), Role::Primary);
    assert!(s.continues_as(Role::Primary));
    s.fall_back_to_idle();
    assert!(!s.continues_as(Role::Primary));
    assert_eq!(s.config().hostname, "h");
    s.shut_down();
    assert!(!s.is_running());
}

#[test]
fn service_peers() {
    let s0 = Service::new(Config::with_identity("h".to_string(), "k".to_string()));
    assert_eq!(s0.current_role(), Role::Idle);
    let mut s = s0;
    assert!(s.peer_info().is_none());
    assert_eq!(s.observe_peer("192.168.1.2", "192.168.1.3", &packet("p", "192.168.1.3", Role::Primary), 0), Some(true));
    assert_eq!(s.peer_info().unwrap().ip, "192.168.1.3");
    s.expire_peers(10000);
    assert!(s.peer_info().is_none());
}
