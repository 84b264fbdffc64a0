use fortitui::backend::capabilities::caps;
use fortitui::backend::direct::{capabilities, from_profile, route_source};
use fortitui::backend::{AddressFamily, Capabilities};
use fortitui::config::profiles::Profile;

fn profile(token: Option<&str>, verify_tls: bool) -> Profile {
    Profile {
        profile_type: "direct".into(),
        host: "10.0.0.1".into(),
        port: 8443,
        verify_tls,
        credential: "lab".into(),
        token: token.map(|t| t.to_string()),
    }
}

#[test]
fn profile_token_wins_over_environment() {
    let s = from_profile(&profile(Some("p-tok"), true), false, Some("own-tok"), Some("env-tok")).unwrap();
    assert_eq!(s.token, "p-tok");
    assert_eq!(s.host, "10.0.0.1");
    assert_eq!(s.port, 8443);
    assert!(s.verify_tls);
}

#[test]
fn environment_token_is_the_fallback() {
    let s = from_profile(&profile(None, true), false, None, Some("env-tok")).unwrap();
    assert_eq!(s.token, "env-tok");
    let e = from_profile(&profile(None, true), false, None, Some("")).unwrap_err();
    assert_eq!(e, "no API token available for lab");
    assert!(from_profile(&profile(None, true), false, None, None).is_err());
}

#[test]
fn per_profile_variable_before_global_token() {
    let s = from_profile(&profile(None, true), false, Some("a"), Some("b")).unwrap();
    assert_eq!(s.token, "a");
    let s = from_profile(&profile(None, true), false, Some(""), Some("b")).unwrap();
    assert_eq!(s.token, "b");
}

#[test]
fn insecure_or_profile_turns_verification_off() {
    assert!(!from_profile(&profile(Some("t"), true), true, None, None).unwrap().verify_tls);
    assert!(!from_profile(&profile(Some("t"), false), false, None, None).unwrap().verify_tls);
}

#[test]
fn route_sources() {
    assert_eq!(route_source(AddressFamily::Ipv4), ("/router/ipv4", "ipv4"));
    assert_eq!(route_source(AddressFamily::Ipv6), ("/router/ipv6", "ipv6"));
}

#[test]
fn direct_capabilities() {
    let c = capabilities();
    for cap in [
        caps::SYSTEM,
        caps::INTERFACES,
        caps::SDWAN,
        caps::IPSEC,
        caps::ROUTING,
        caps::FIREWALL,
        caps::SESSIONS,
        caps::DIAGNOSTICS,
    ] {
        assert!(c.has(cap), "{cap}");
    }
    assert!(!c.has(caps::BGP));
    assert!(!c.has(caps::OSPF));
    assert!(!c.has(caps::LOGS));
    assert_eq!(c.available.len(), 8);
}

#[test]
fn capability_insert_is_idempotent() {
    let mut c = Capabilities::new();
    assert!(!c.has("x"));
    c.insert("x");
    c.insert("x");
    assert!(c.has("x"));
    assert_eq!(c.available.len(), 1);
}
