use fortitui::backend::direct::{bgp_of, sdwan_of, system_status_of};
use fortitui::fortigate::client::parse_response;
use fortitui::fortigate::normalize;
use fortitui::json::JsonValue;
use fortitui::models::LinkState;

fn load(text: &str) -> JsonValue {
    parse_response(200, text, "/fixture").expect("fixture invalid JSON")
}

const SYSTEM_STATUS: &str = r#"{"http_method":"GET","results":{"model_name":"FortiGate","model_number":"121G","model":"FG121G","hostname":"Leatherleaf-121G","log_disk_status":"available"},"vdom":"root","path":"system","name":"status","status":"success","serial":"FG121GTK00000000","version":"v8.0.0","build":3401}"#;

const RESOURCE_USAGE: &str = r#"{"results":{"cpu":[{"current":7,"historical":{}}],"mem":[{"current":41}],"disk":[{"current":3}],"session":[{"current":1312,"historical":{}},{"current":1290.6}]},"status":"success"}"#;

const INTERFACES: &str = r#"{"results":{"mgmt":{"id":"mgmt","name":"mgmt","ip":"192.168.1.99","mask":24,"link":true,"speed":1000.0,"rx_bytes":123456,"tx_bytes":654321,"rx_packets":1000,"tx_packets":900,"rx_errors":0},"port1":{"name":"port1","ip":"0.0.0.0","mask":0,"link":false,"rx_bytes":0,"tx_bytes":0}},"status":"success"}"#;

const MEMBERS: &str = r#"{"results":[{"interface":"port4","link":"up","session":12,"tx_bandwidth":1000,"rx_bandwidth":2000},{"interface":"port5","link":"down"}],"status":"success"}"#;

const HEALTH: &str = r#"{"results":{"Default_DNS":{"port4":{"status":"up","latency":3.2,"jitter":0.1,"packet_loss":0},"port5":{"status":"down"}}},"status":"success"}"#;

const ROUTES: &str = r#"{"results":[{"ip_mask":"0.0.0.0/0","type":"static","gateway":"10.0.0.1","interface":"port4","distance":10,"metric":0},{"ip_mask":"10.0.0.0/24","type":"connect","interface":"port4","distance":0},{"ip_mask":"172.16.0.0/16","type":"static","origin":"sd-wan","distance":1}],"status":"success"}"#;

const POLICIES: &str = r#"{"results":[{"policyid":1,"hit_count":10,"bytes":2048,"active_sessions":3}],"status":"success"}"#;

#[test]
fn system_status_parses() {
    let v = load(SYSTEM_STATUS);
    let s = normalize::system_status(&v).unwrap();
    assert_eq!(s.model, "FG121G");
    assert_eq!(s.hostname, "Leatherleaf-121G");
    assert!(!s.serial.is_empty());
}

#[test]
fn resource_usage_parses() {
    let v = load(RESOURCE_USAGE);
    let sessions = normalize::resource_sessions(&v);
    assert!(sessions > 0);
}

#[test]
fn interfaces_parse() {
    let v = load(INTERFACES);
    let ifs = normalize::interfaces(&v).unwrap();
    assert!(!ifs.is_empty());
    let mgmt = ifs.iter().find(|i| i.name == "mgmt").unwrap();
    assert!(mgmt.speed_mbps.is_some() || mgmt.speed_mbps.is_none());
}

#[test]
fn sdwan_members_parse() {
    let v = load(MEMBERS);
    let m = normalize::sdwan_members(&v).unwrap();
    assert!(!m.is_empty());
    assert!(!m[0].interface.is_empty());
}

#[test]
fn sdwan_health_check_parse() {
    let v = load(HEALTH);
    let s = normalize::sdwan_health_check(&v).unwrap();
    assert!(!s.health_checks.is_empty());
}

#[test]
fn routes_parse() {
    let v = load(ROUTES);
    let r = normalize::routes(&v, "ipv4").unwrap();
    assert!(!r.is_empty());
    assert!(r.iter().any(|x| !x.prefix.is_empty()));
}

#[test]
fn firewall_policy_parse_placeholder() {
    let v = load(POLICIES);
    let arr = match &v {
        JsonValue::Object(m) => match m.iter().find(|(k, _)| k == "results") {
            Some((_, JsonValue::Array(a))) => a.len(),
            _ => 0,
        },
        _ => 0,
    };
    assert!(arr > 0);
}

#[test]
fn system_status_fields_come_from_the_document() {
    let s = normalize::system_status(&load(SYSTEM_STATUS)).unwrap();
    assert_eq!(s.serial, "FG121GTK00000000");
    assert_eq!(s.fortios, "v8.0.0");
    assert_eq!(s.build, "3401");
    assert_eq!(s.uptime_secs, 0);
}

#[test]
fn resource_sessions_take_the_largest_reading() {
    assert_eq!(normalize::resource_sessions(&load(RESOURCE_USAGE)), 1312);
    let none = load(r#"{"results":{"session":[]}}"#);
    assert_eq!(normalize::resource_sessions(&none), 0);
    let frac = load(r#"{"results":{"session":[{"current":2.9},{"current":"x"}]}}"#);
    assert_eq!(normalize::resource_sessions(&frac), 2);
}

#[test]
fn interface_address_and_link() {
    let ifs = normalize::interfaces(&load(INTERFACES)).unwrap();
    assert_eq!(ifs.len(), 2);
    let mgmt = &ifs[0];
    assert_eq!(mgmt.ipv4.as_deref(), Some("192.168.1.99/24"));
    assert_eq!(mgmt.link_state, LinkState::Up);
    assert_eq!(mgmt.speed_mbps, Some(1000));
    assert_eq!(mgmt.rx_bytes, 123456);
    let p1 = &ifs[1];
    assert_eq!(p1.ipv4, None);
    assert_eq!(p1.link_state, LinkState::Down);
}

#[test]
fn sdwan_member_states() {
    let m = normalize::sdwan_members(&load(MEMBERS)).unwrap();
    assert_eq!(m.len(), 2);
    assert_eq!(m[0].state, "ACTIVE");
    assert_eq!(m[0].sessions, 12);
    assert_eq!(m[0].tx_rate_bps, Some(1000));
    assert_eq!(m[1].state, "DOWN");
    assert_eq!(m[1].tx_rate_bps, None);
}

#[test]
fn health_status_labels() {
    let s = normalize::sdwan_health_check(&load(HEALTH)).unwrap();
    assert_eq!(s.health_checks.len(), 2);
    assert_eq!(s.health_checks[0].name, "Default_DNS");
    assert_eq!(s.health_checks[0].member, "port4");
    assert_eq!(s.health_checks[0].status.as_deref(), Some("PASS"));
    assert_eq!(s.health_checks[1].status.as_deref(), Some("FAIL"));
}

#[test]
fn route_protocol_and_family() {
    let r = normalize::routes(&load(ROUTES), "ipv4").unwrap();
    assert_eq!(r.len(), 3);
    assert_eq!(r[0].protocol, "static");
    assert_eq!(r[0].next_hop.as_deref(), Some("10.0.0.1"));
    assert_eq!(r[0].distance, Some(10));
    assert_eq!(r[1].next_hop, None);
    assert_eq!(r[2].protocol, "sd-wan");
    assert!(r.iter().all(|x| x.family == "ipv4"));
}

#[test]
fn combined_system_and_sdwan_views() {
    let s = system_status_of(&load(SYSTEM_STATUS), &load(RESOURCE_USAGE)).unwrap();
    assert_eq!(s.hostname, "Leatherleaf-121G");
    assert_eq!(s.sessions, 1312);
    let sd = sdwan_of(&load(MEMBERS), &load(HEALTH)).unwrap();
    assert_eq!(sd.members.len(), 2);
    assert_eq!(sd.health_checks.len(), 2);
    assert_eq!(sd.active_member, None);
}

#[test]
fn failed_bgp_request_gives_empty_state() {
    let st = bgp_of(&Err("HTTP 404".to_string())).unwrap();
    assert!(st.neighbors.is_empty());
    assert_eq!(st.router_id, None);
    let doc = load(r#"{"results":{"router_id":"1.1.1.1","neighbors":[{"neighbor_ip":"10.0.0.2","remote_as":65001,"state":"Established"}]}}"#);
    let st = bgp_of(&Ok(doc)).unwrap();
    assert_eq!(st.router_id.as_deref(), Some("1.1.1.1"));
    assert_eq!(st.neighbors.len(), 1);
}
