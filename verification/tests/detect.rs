use fortitui::models::{InterfaceStatus, InterfaceType, LinkState, SdwanMember, SdwanState};
use fortitui::tui::detect::{
    detect_interfaces, detect_interfaces_at, detect_sdwan, detect_sdwan_active_at, detect_sdwan_at,
};

fn iface(name: &str, up: bool) -> InterfaceStatus {
    InterfaceStatus {
        name: name.to_string(),
        alias: None,
        iftype: InterfaceType::Physical,
        admin_state: false,
        link_state: if up { LinkState::Up } else { LinkState::Down },
        ipv4: None,
        ipv6: None,
        speed_mbps: None,
        duplex: None,
        mtu: None,
        rx_bytes: 0,
        tx_bytes: 0,
        rx_packets: 0,
        tx_packets: 0,
        errors: 0,
        drops: 0,
        rx_rate_bps: None,
        tx_rate_bps: None,
    }
}

fn member(name: &str, state: &str) -> SdwanMember {
    SdwanMember {
        name: name.into(),
        interface: String::new(),
        zone: None,
        gateway: None,
        state: state.to_string(),
        sla: None,
        tx_rate_bps: None,
        rx_rate_bps: None,
        sessions: 0,
    }
}

fn sdwan(members: Vec<SdwanMember>) -> SdwanState {
    SdwanState { members, health_checks: Vec::new(), active_member: None }
}

#[test]
fn interface_detect_updown() {
    let prev = vec![iface("wan1", true), iface("wan2", false)];
    let new = vec![iface("wan1", false), iface("wan2", true)];
    let evs = detect_interfaces(&prev, &new);
    assert!(evs
        .iter()
        .any(|e| e.description.contains("wan1") && e.description.contains("DOWN")));
    assert!(evs
        .iter()
        .any(|e| e.description.contains("wan2") && e.description.contains("UP")));
    assert!(evs.iter().any(|e| e.severity == "WARNING"));
    assert!(evs.iter().any(|e| e.severity == "INFO"));
    // No change -> no events.
    assert!(detect_interfaces(&prev, &prev).is_empty());
}

#[test]
fn sdwan_detect_state_change() {
    let mk = |state: &str| sdwan(vec![member("port4", state)]);
    let evs = detect_sdwan(&mk("ACTIVE"), &mk("DOWN"));
    assert!(!evs.is_empty());
    assert!(evs[0].description.contains("port4"));
    assert!(detect_sdwan(&mk("ACTIVE"), &mk("ACTIVE")).is_empty());
}

#[test]
fn interface_events_text_and_time() {
    let evs = detect_interfaces_at(&[iface("wan1", true)], &[iface("wan1", false)], 42);
    assert_eq!(evs.len(), 1);
    assert_eq!(evs[0].description, "Interface wan1 went DOWN");
    assert_eq!(evs[0].severity, "WARNING");
    assert_eq!(evs[0].timestamp, 42);
    let evs = detect_interfaces_at(&[iface("wan1", false)], &[iface("wan1", true)], 7);
    assert_eq!(evs[0].description, "Interface wan1 came UP");
    assert_eq!(evs[0].severity, "INFO");
}

#[test]
fn new_interface_is_not_an_event() {
    assert!(detect_interfaces_at(&[], &[iface("wan9", true)], 1).is_empty());
}

#[test]
fn sdwan_events_keep_member_order() {
    let prev = sdwan(vec![member("a", "ACTIVE"), member("b", "ACTIVE")]);
    let new = sdwan(vec![member("b", "DOWN"), member("a", "STANDBY")]);
    let evs = detect_sdwan_at(&prev, &new, 5);
    assert_eq!(evs.len(), 2);
    assert!(evs[0].description.contains("b"));
    assert!(evs[1].description.contains("a"));
    assert!(evs.iter().all(|e| e.timestamp == 5));
}

#[test]
fn activation_is_reported_once() {
    let prev = sdwan(vec![member("port4", "ACTIVE"), member("port5", "STANDBY")]);
    let new = sdwan(vec![member("port4", "STANDBY"), member("port5", "ACTIVE")]);
    let evs = detect_sdwan_active_at(&prev, &new, 9);
    assert_eq!(evs.len(), 1);
    assert!(evs[0].description.contains("port5"));
    assert!(detect_sdwan_active_at(&new, &new, 9).is_empty());
}
