use fortitui::cli::{
    report_field, sdwan_line, status_head, fmt_bytes, interface_line, lookup_line, plan, policy_line, route_line, select_default_profile,
    session_line, vpn_line, Action, Args, Command, CredentialAction, ProfileAction, Report,
};
use fortitui::models::{
    SdwanMember, SystemStatus, FirewallPolicy, FirewallSession, InterfaceStatus, InterfaceType, IpsecTunnel, LinkState, Route,
};

fn args(profile: Option<&str>, command: Option<Command>) -> Args {
    Args {
        profile: profile.map(|p| p.to_string()),
        profile_select: false,
        debug: false,
        json: false,
        insecure: false,
        command,
    }
}

#[test]
fn single_profile_is_the_default() {
    assert_eq!(select_default_profile(&vec!["edge".to_string()]).unwrap(), "edge");
}

#[test]
fn no_or_several_profiles_need_a_choice() {
    assert_eq!(
        select_default_profile(&vec![]).unwrap_err(),
        "no profiles configured — run `fortitui profile add` first"
    );
    assert_eq!(
        select_default_profile(&vec!["a".to_string(), "b".to_string(), "c".to_string()])
            .unwrap_err(),
        "multiple profiles configured (a, b, c) — pass one with `--profile <name>`"
    );
}

#[test]
fn plan_dispatches_commands() {
    assert_eq!(plan(&args(None, None)).unwrap(), Action::Console { profile: None, insecure: false });
    assert_eq!(
        plan(&args(Some("edge"), Some(Command::Routes))).unwrap(),
        Action::Show { profile: "edge".into(), view: Report::Routes, insecure: false, json: false }
    );
    assert_eq!(
        plan(&args(None, Some(Command::Status))).unwrap_err(),
        "--profile <name> is required for this command"
    );
    assert_eq!(
        plan(&args(None, Some(Command::Profile { action: ProfileAction::List }))).unwrap(),
        Action::ListProfiles
    );
    assert_eq!(
        plan(&args(None, Some(Command::Profile { action: ProfileAction::Remove { name: "x".into() } })))
            .unwrap(),
        Action::RemoveProfile { name: "x".into() }
    );
    let mut a = args(Some("edge"), Some(Command::Lookup { destination: "8.8.8.8".into() }));
    a.json = true;
    assert_eq!(
        plan(&a).unwrap(),
        Action::Lookup { profile: "edge".into(), destination: "8.8.8.8".into(), insecure: false, json: true }
    );
}

#[test]
fn plan_refusals() {
    let mut a = args(Some("edge"), Some(Command::Status));
    a.profile_select = true;
    assert_eq!(plan(&a).unwrap_err(), "interactive profile selection is not yet implemented");
    let e = plan(&args(None, Some(Command::Credential { action: CredentialAction::SetToken { profile: "edge".into() } })))
        .unwrap_err();
    assert_eq!(
        e,
        "keyring support disabled — rebuild with `cargo build --features keyring` (cannot set a token for profile 'edge')"
    );
    let e = plan(&args(None, Some(Command::Credential { action: CredentialAction::UnsetToken { profile: "edge".into() } })))
        .unwrap_err();
    assert!(e.ends_with("(cannot unset a token for profile 'edge')"));
}

fn float_bytes(n: u64) -> String {
    const K: f64 = 1024.0;
    const M: f64 = K * 1024.0;
    const G: f64 = M * 1024.0;
    let n = n as f64;
    if n >= G {
        format!("{:.1}G", n / G)
    } else if n >= M {
        format!("{:.1}M", n / M)
    } else if n >= K {
        format!("{:.1}K", n / K)
    } else {
        format!("{n:.0}")
    }
}

#[test]
fn report_bytes_have_one_decimal() {
    for n in [0u64, 5, 1023, 1024, 1536, 1075, 1_048_576, 3_000_000_000, u64::MAX] {
        assert_eq!(fmt_bytes(n), float_bytes(n), "{n}");
    }
    assert_eq!(fmt_bytes(1536), "1.5K");
}

#[test]
fn report_lines() {
    let i = InterfaceStatus {
        name: "port1".into(),
        alias: None,
        iftype: InterfaceType::Physical,
        admin_state: true,
        link_state: LinkState::Up,
        ipv4: Some("10.0.0.1/24".into()),
        ipv6: None,
        speed_mbps: None,
        duplex: None,
        mtu: None,
        rx_bytes: 2048,
        tx_bytes: 10,
        rx_packets: 0,
        tx_packets: 0,
        errors: 0,
        drops: 0,
        rx_rate_bps: None,
        tx_rate_bps: None,
    };
    assert_eq!(
        interface_line(&i),
        format!("{:<12} {} {:>12} {:>14} {:>14}", "port1", "UP", "10.0.0.1/24", "2.0K", "10")
    );
    let r = Route {
        prefix: "0.0.0.0/0".into(),
        family: "ipv4".into(),
        protocol: "static".into(),
        next_hop: Some("10.0.0.254".into()),
        interface: None,
        distance: Some(10),
        metric: None,
        active: true,
    };
    assert_eq!(route_line(&r), format!("{:<18} {:<12} {:<16} {:<10} d={}", "0.0.0.0/0", "static", "10.0.0.254", "--", 10));
    assert_eq!(
        lookup_line(&r),
        format!("{:<20} {:<10} {:<16} {:<10} d={} m={}", "0.0.0.0/0", "static", "10.0.0.254", "--", 10, 0)
    );
    let s = FirewallSession {
        src: "10.1.1.1".into(),
        dst: "8.8.8.8".into(),
        src_port: 5353,
        dst_port: 53,
        proto: "udp".into(),
        policy: None,
        interface: None,
        bytes: 100,
        packets: 2,
        age_secs: 7,
    };
    assert_eq!(
        session_line(&s),
        format!(
            "{:<15}:{:<5} -> {:<15}:{:<5} {:<4} pol={:<4} {:<6} {:<8} {}s",
            "10.1.1.1", 5353, "8.8.8.8", 53, "udp", "--", "100", "2", 7
        )
    );
    let p = FirewallPolicy {
        id: 3,
        name: "p".into(),
        source: vec![],
        destination: vec![],
        service: vec![],
        action: "accept".into(),
        hit_count: 42,
        bytes: 1_572_864,
        sessions: 9,
    };
    assert_eq!(policy_line(&p), format!("{:<4} hits={:<10} bytes={:<12} sessions={}", 3, 42, "1.5M", 9));
    let t = IpsecTunnel {
        name: "to-branch".into(),
        phase1_state: Some("up".into()),
        phase2_state: None,
        remote_gateway: None,
        local_gateway: None,
        ike_version: None,
        encryption: None,
        authentication: None,
        rekey_secs: None,
        rx_bytes: 0,
        tx_bytes: 0,
        uptime_secs: None,
        last_change: None,
        key_exchange: None,
        pqc_signature: None,
        pqc_ppk: None,
    };
    assert_eq!(vpn_line(&t), format!("{:<20} {:<8} {:<6}", "to-branch", "up", "--"));
}

#[test]
fn status_and_sdwan_report_lines() {
    let s = SystemStatus {
        hostname: "fw1".into(),
        serial: "FG1".into(),
        model: "FG121G".into(),
        fortios: "v8.0.0".into(),
        build: "3401".into(),
        uptime_secs: 5,
        sessions: 12,
        vdoms: 0,
        ha_state: None,
    };
    assert_eq!(status_head(&s), "fw1 — FG121G v8.0.0");
    assert_eq!(report_field("Serial", &s.serial), format!("  Serial:   {}", s.serial));
    assert_eq!(report_field("Sessions", "12"), format!("  Sessions: {}", 12));
    assert_eq!(report_field("Uptime", "5s"), format!("  Uptime:   {}s", 5));
    let m = SdwanMember {
        name: "port4".into(),
        interface: "port4".into(),
        zone: None,
        gateway: None,
        state: "ACTIVE".into(),
        sla: None,
        tx_rate_bps: None,
        rx_rate_bps: None,
        sessions: 0,
    };
    assert_eq!(
        sdwan_line(&m, "--", "--", "--"),
        format!("{:<12} {:<8} lat={:<6} jit={:<5} loss={:<6} sla={}", "port4", "ACTIVE", "--", "--", "--", "--")
    );
}
