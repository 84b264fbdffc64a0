use fortitui::config::credentials::{env_var_for, get, redact};
use fortitui::config::profiles::{default_port, default_tls, default_type, Profile, ProfilesConfig};
use fortitui::config::{
    check_answers, list_profiles, load_profile, new_direct_profile, profile_dir, profiles_file,
    remove_profile,
};
use fortitui::text::parse_u16;

fn profile(host: &str) -> Profile {
    Profile {
        profile_type: default_type(),
        host: host.to_string(),
        port: default_port(),
        verify_tls: default_tls(),
        credential: host.to_string(),
        token: None,
    }
}

#[test]
fn defaults_are_direct_443_verified() {
    assert_eq!(default_type(), "direct");
    assert_eq!(default_port(), 443);
    assert!(default_tls());
}

#[test]
fn profiles_are_listed_in_name_order() {
    let mut cfg = ProfilesConfig::new();
    cfg.insert("lab".to_string(), profile("10.0.0.2"));
    cfg.insert("edge".to_string(), profile("10.0.0.1"));
    cfg.insert("zeta".to_string(), profile("10.0.0.3"));
    cfg.insert("Lab".to_string(), profile("10.0.0.4"));
    assert_eq!(list_profiles(&cfg), vec!["Lab", "edge", "lab", "zeta"]);
}

#[test]
fn read_after_write() {
    let mut cfg = ProfilesConfig::new();
    cfg.insert("edge".to_string(), profile("10.0.0.1"));
    assert_eq!(load_profile(&cfg, "edge").unwrap().host, "10.0.0.1");
    cfg.insert("edge".to_string(), profile("10.9.9.9"));
    assert_eq!(load_profile(&cfg, "edge").unwrap().host, "10.9.9.9");
    assert_eq!(list_profiles(&cfg).len(), 1);
}

#[test]
fn missing_profile_is_an_error() {
    let cfg = ProfilesConfig::new();
    assert_eq!(load_profile(&cfg, "nope").unwrap_err(), "profile 'nope' not found");
}

#[test]
fn remove_then_missing() {
    let mut cfg = ProfilesConfig::new();
    cfg.insert("a".to_string(), profile("h1"));
    cfg.insert("b".to_string(), profile("h2"));
    remove_profile(&mut cfg, "a");
    assert!(load_profile(&cfg, "a").is_err());
    assert_eq!(load_profile(&cfg, "b").unwrap().host, "h2");
    remove_profile(&mut cfg, "absent");
    assert_eq!(list_profiles(&cfg), vec!["b"]);
}

#[test]
fn token_from_environment() {
    assert_eq!(get(None, Some("abc"), "edge").unwrap(), "abc");
    let e = get(None, Some(""), "edge").unwrap_err();
    assert_eq!(
        e,
        "no token found for 'edge'. Set FORTITUI_TOKEN=<api-key> or enable the keyring feature."
    );
    assert!(get(None, None, "edge").is_err());
    assert!(get(Some(""), None, "edge").is_err());
}

#[test]
fn profile_variable_comes_before_global_token() {
    assert_eq!(get(Some("a"), Some("b"), "pve-dev").unwrap(), "a");
    assert_eq!(get(Some(""), Some("b"), "pve-dev").unwrap(), "b");
    assert_eq!(get(Some("a"), None, "pve-dev").unwrap(), "a");
}

#[test]
fn profile_variable_names() {
    assert_eq!(env_var_for("pve-dev"), "FORTITUI_PVE_DEV");
    assert_eq!(env_var_for("Lab2"), "FORTITUI_LAB2");
    assert_eq!(env_var_for("edge.fw 1"), "FORTITUI_EDGE_FW_1");
    assert_eq!(env_var_for(""), "FORTITUI_");
}

#[test]
fn remove_keeps_the_other_names_in_order() {
    let mut cfg = ProfilesConfig::new();
    for n in ["d", "a", "c", "b"] {
        cfg.insert(n.to_string(), profile(n));
    }
    remove_profile(&mut cfg, "b");
    assert_eq!(list_profiles(&cfg), vec!["a", "c", "d"]);
    remove_profile(&mut cfg, "b");
    assert_eq!(list_profiles(&cfg), vec!["a", "c", "d"]);
    assert_eq!(load_profile(&cfg, "c").unwrap().host, "c");
}

#[test]
fn redaction_by_length() {
    assert_eq!(redact(""), "<empty>");
    assert_eq!(redact("a"), "***");
    assert_eq!(redact("12345678"), "***");
    assert_eq!(redact("123456789"), "1234***");
    assert_eq!(redact("éé1234567"), "éé***");
}

#[test]
fn answers_are_trimmed_and_checked() {
    let a = check_answers("  10.0.0.1 \n", " 8443\n", " tok \n").unwrap();
    assert_eq!(a.host, "10.0.0.1");
    assert_eq!(a.port, 8443);
    assert_eq!(a.token, "tok");
    let a = check_answers("fg", "\n", "t").unwrap();
    assert_eq!(a.port, 443);
    let a = check_answers("fg", "70000", "t").unwrap();
    assert_eq!(a.port, 443);
    assert_eq!(check_answers(" ", "443", "t").unwrap_err(), "host and token are required");
    assert_eq!(check_answers("fg", "443", "\n").unwrap_err(), "host and token are required");
}

#[test]
fn new_profile_names_default_to_host() {
    let a = check_answers("fg.lab", "443", "t").unwrap();
    let (name, p) = new_direct_profile(&a, "  \n");
    assert_eq!(name, "fg.lab");
    assert_eq!(p.credential, "fg.lab");
    assert_eq!(p.profile_type, "direct");
    assert!(p.verify_tls);
    assert_eq!(p.token, None);
    let (name, p) = new_direct_profile(&a, " core \n");
    assert_eq!(name, "core");
    assert_eq!(p.credential, "core");
    assert_eq!(p.host, "fg.lab");
}

#[test]
fn port_parsing_follows_u16_from_str() {
    for s in ["0", "443", "+443", "0443", "65535", "65536", "", "+", "-1", " 1", "1a", "99999999999"] {
        assert_eq!(parse_u16(s), s.parse::<u16>().ok(), "{s:?}");
    }
}

#[test]
fn configuration_directory() {
    assert_eq!(profile_dir(Some("/x/cfg"), Some("/home/u")), "/x/cfg/fortitui");
    assert_eq!(profile_dir(Some("/x/cfg/"), None), "/x/cfg/fortitui");
    assert_eq!(profile_dir(None, Some("/home/u")), "/home/u/.config/fortitui");
    assert_eq!(profile_dir(None, None), ".fortitui");
    assert_eq!(profiles_file("/home/u/.config/fortitui"), "/home/u/.config/fortitui/profiles.yaml");
    let joined = std::path::PathBuf::from("/a/b").join("profiles.yaml");
    assert_eq!(profiles_file("/a/b"), joined.to_string_lossy());
}
