use fortitui::models::{FirewallSession, SdwanHealthCheck, SdwanState};
use fortitui::tui::screens::interfaces::{
    detail_index, detail_lines, detail_title, errors_tone, fmt_speed, interface_matches, interfaces_status,
    rate_series,
};
use fortitui::tui::screens::sdwan::{check_matches, member_matches};
use fortitui::tui::screens::sessions::session_matches;
use fortitui::models::{BgpNeighbor, BgpState, Event, InterfaceStatus, InterfaceType, IpsecTunnel, LinkState, SdwanMember};
use fortitui::tui::app::{palette_commands, palette_commands_for_draw, refresh_plan, Domain, Effect, Key, Navigation, PaletteAction};
use fortitui::tui::screens::dashboard::{bgp_health, degraded_count, sdwan_health, tunnels_up_text};
use fortitui::tui::screens::diagnostics::{availability_tone, diagnostics_table};
use fortitui::tui::screens::events::{fmt_time, severity_tone};
use fortitui::tui::screens::help::{global_keys, screen_keys};
use fortitui::tui::screens::routing::{bgp_summary, family_tag, neighbor_tone, protocol_tone};
use fortitui::tui::screens::sdwan::{active_member, member_name, member_state, sla_tone};
use fortitui::tui::screens::sessions::{age, proto_label};
use fortitui::tui::screens::vpn::{p1, tunnels_status, uptime};
use fortitui::tui::screens::{link_tag, matches_search, tag, Screen, Tone};
use fortitui::tui::state::{AppState, IfaceRateTable, MAX_EVENTS};

fn neighbor(state: &str) -> BgpNeighbor {
    BgpNeighbor {
        address: "10.0.0.2".into(),
        local_as: None,
        remote_as: Some(65001),
        state: state.into(),
        uptime_secs: None,
        rx_prefixes: 0,
        tx_prefixes: 0,
        family: String::new(),
    }
}

fn member(name: &str, state: &str) -> SdwanMember {
    SdwanMember {
        name: name.into(),
        interface: name.into(),
        zone: None,
        gateway: None,
        state: state.into(),
        sla: None,
        tx_rate_bps: None,
        rx_rate_bps: None,
        sessions: 0,
    }
}

fn tunnel(p1: Option<&str>) -> IpsecTunnel {
    IpsecTunnel {
        name: "t".into(),
        phase1_state: p1.map(|s| s.to_string()),
        phase2_state: None,
        remote_gateway: None,
        local_gateway: None,
        ike_version: None,
        encryption: None,
        authentication: None,
        rekey_secs: None,
        rx_bytes: 0,
        tx_bytes: 0,
        uptime_secs: None,
        last_change: None,
        key_exchange: None,
        pqc_signature: None,
        pqc_ppk: None,
    }
}

fn iface(name: &str, rx: u64, tx: u64) -> InterfaceStatus {
    InterfaceStatus {
        name: name.into(),
        alias: None,
        iftype: InterfaceType::Physical,
        admin_state: true,
        link_state: LinkState::Up,
        ipv4: None,
        ipv6: None,
        speed_mbps: None,
        duplex: None,
        mtu: None,
        rx_bytes: rx,
        tx_bytes: tx,
        rx_packets: 0,
        tx_packets: 0,
        errors: 0,
        drops: 0,
        rx_rate_bps: None,
        tx_rate_bps: None,
    }
}

fn ev(n: u64) -> Event {
    Event { timestamp: n, description: format!("e{n}"), severity: "INFO".into() }
}

#[test]
fn screen_titles() {
    assert_eq!(Screen::Sdwan.title(), "SD-WAN");
    assert_eq!(Screen::Policies.title(), "Firewall Policies");
    assert_eq!(Screen::Dashboard.title(), "Dashboard");
}

#[test]
fn palette_filters_case_insensitively() {
    assert_eq!(palette_commands("").len(), 13);
    assert_eq!(palette_commands("   ").len(), 13);
    let r = palette_commands("SD");
    assert_eq!(r, vec![("Open SD-WAN", PaletteAction::Navigate(Screen::Sdwan))]);
    assert_eq!(palette_commands_for_draw("open r"), vec!["Open Routing / BGP"]);
    assert!(palette_commands("zzz").is_empty());
}

#[test]
fn help_toggles_back() {
    let mut n = Navigation::new();
    n.navigate(Screen::Routing);
    n.toggle_help();
    assert_eq!(n.screen, Screen::Help);
    n.toggle_help();
    assert_eq!(n.screen, Screen::Routing);
}

#[test]
fn keys_switch_screens_and_quit() {
    let mut n = Navigation::new();
    let mut st = AppState::new();
    assert_eq!(n.dispatch(&mut st, Key::Char('g'), true), Effect::Refresh);
    assert_eq!(n.screen, Screen::Routing);
    assert_eq!(n.dispatch(&mut st, Key::Char('i'), false), Effect::Nothing);
    assert_eq!(n.screen, Screen::Routing);
    assert_eq!(n.dispatch(&mut st, Key::Char('r'), true), Effect::Refresh);
    n.dispatch(&mut st, Key::Char('q'), true);
    assert!(n.quit);
}

#[test]
fn palette_runs_a_command() {
    let mut n = Navigation::new();
    let mut st = AppState::new();
    n.dispatch(&mut st, Key::Char(':'), true);
    assert!(st.palette);
    for c in "ipsec".chars() {
        n.dispatch(&mut st, Key::Char(c), true);
    }
    assert_eq!(st.search, "ipsec");
    assert_eq!(n.screen, Screen::Dashboard);
    let eff = n.dispatch(&mut st, Key::Enter, true);
    assert_eq!(n.screen, Screen::Ipsec);
    assert_eq!(eff, Effect::Refresh);
    assert!(!st.palette);
}

#[test]
fn route_lookup_input() {
    let mut n = Navigation::new();
    let mut st = AppState::new();
    n.dispatch(&mut st, Key::Char('g'), true);
    n.dispatch(&mut st, Key::Char('l'), true);
    assert!(st.input_mode);
    for c in "8.8.8.8".chars() {
        n.dispatch(&mut st, Key::Char(c), true);
    }
    n.dispatch(&mut st, Key::Char('#'), true);
    assert_eq!(st.input, "8.8.8.8");
    let eff = n.dispatch(&mut st, Key::Enter, true);
    assert_eq!(eff, Effect::Lookup("8.8.8.8".into()));
}

#[test]
fn sessions_refreshed_only_on_their_screen() {
    assert_eq!(refresh_plan(Screen::Sessions), vec![Domain::Sessions]);
    assert!(!refresh_plan(Screen::Dashboard).contains(&Domain::Sessions));
    assert_eq!(refresh_plan(Screen::Routing), vec![Domain::Routes, Domain::Routes6, Domain::Bgp]);
    assert!(refresh_plan(Screen::Help).is_empty());
}

#[test]
fn event_log_keeps_the_newest() {
    let mut st = AppState::new();
    for i in 0..5 {
        st.push_event(ev(i), 3);
    }
    assert_eq!(st.events.len(), 3);
    assert_eq!(st.events[0].timestamp, 2);
    assert_eq!(st.events[2].timestamp, 4);
    assert_eq!(MAX_EVENTS, 200);
}

#[test]
fn throughput_history() {
    let mut st = AppState::new();
    st.update_iface_rates_at(&[iface("wan1", 1000, 0)], 100);
    assert_eq!(st.iface_rates.get(&"wan1".to_string()).unwrap().history.len(), 0);
    st.update_iface_rates_at(&[iface("wan1", 3000, 500)], 102);
    let r = st.iface_rates.get(&"wan1".to_string()).unwrap();
    assert_eq!(r.history.len(), 1);
    assert_eq!(r.history[0], (102, 8000, 2000));
    st.update_iface_rates_at(&[iface("wan1", 0, 500)], 103);
    let r = st.iface_rates.get(&"wan1".to_string()).unwrap();
    assert_eq!(r.history[1], (103, 0, 0));
    for t in 104..200 {
        st.update_iface_rates_at(&[iface("wan1", t, t)], t);
    }
    assert_eq!(st.iface_rates.get(&"wan1".to_string()).unwrap().history.len(), 60);
    let empty = IfaceRateTable::new();
    assert!(empty.get(&"wan1".to_string()).is_none());
}

#[test]
fn tags_and_tones() {
    assert_eq!(tag(true), ("● UP", Tone::Green));
    assert_eq!(link_tag(LinkState::Unknown), ("? UNKNOWN", Tone::Yellow));
    assert_eq!(family_tag("ipv6"), ("v6", Tone::Magenta));
    assert_eq!(family_tag("ipv4"), ("v4", Tone::Cyan));
    assert_eq!(protocol_tone("sd-wan"), Tone::Cyan);
    assert_eq!(protocol_tone("bgp"), Tone::Plain);
    assert_eq!(neighbor_tone(&neighbor("ESTABLISHED")), Tone::Green);
    assert_eq!(neighbor_tone(&neighbor("Idle")), Tone::Yellow);
    assert_eq!(severity_tone("critical"), Tone::RedBold);
    assert_eq!(severity_tone("Warning"), Tone::Yellow);
    assert_eq!(severity_tone("INFO"), Tone::Green);
    assert_eq!(sla_tone(Some("PASS")), Tone::Green);
    assert_eq!(sla_tone(Some("FAIL")), Tone::Red);
    assert_eq!(sla_tone(None), Tone::Yellow);
    assert_eq!(member_state("ACTIVE"), ("ACTIVE", Tone::GreenBold));
    assert_eq!(member_state("STANDBY"), ("STANDBY", Tone::Cyan));
    assert_eq!(member_state("weird"), ("DOWN", Tone::Red));
    assert_eq!(availability_tone("AVAILABLE"), Tone::Green);
    assert_eq!(availability_tone("NOT AVAILABLE"), Tone::Yellow);
    assert_eq!(diagnostics_table().len(), 7);
    assert_eq!(proto_label("tcp"), ("TCP".to_string(), Tone::Cyan));
    assert_eq!(proto_label("Udp"), ("UDP".to_string(), Tone::Magenta));
    assert_eq!(proto_label("icmp"), ("ICMP".to_string(), Tone::Gray));
}

#[test]
fn summaries() {
    let b = BgpState { router_id: None, local_as: None, neighbors: vec![neighbor("ESTABLISHED"), neighbor("Active")] };
    assert_eq!(bgp_summary(&Some(b)), "1/2 established");
    assert_eq!(bgp_summary(&None), "--");
    let all = BgpState { router_id: None, local_as: None, neighbors: vec![neighbor("ESTABLISHED")] };
    assert_eq!(bgp_health(&all), ("1/1 established".to_string(), Tone::Green));
    let none = BgpState { router_id: None, local_as: None, neighbors: vec![] };
    assert_eq!(bgp_health(&none), ("0/0 established".to_string(), Tone::Yellow));
    let ms = vec![member("a", "ACTIVE"), member("b", "STANDBY"), member("c", "DOWN")];
    assert_eq!(degraded_count(&ms), 1);
    assert_eq!(sdwan_health(&ms), ("member down", Tone::Yellow));
    assert_eq!(sdwan_health(&ms[..2].iter().map(|m| member(&m.name, &m.state)).collect()), ("healthy", Tone::Green));
    let ts = vec![tunnel(Some("up")), tunnel(Some("UP")), tunnel(None)];
    assert_eq!(tunnels_up_text(&ts), "1/3 up");
    assert_eq!(tunnels_status(&ts), "3 tunnels, 2 up");
}

#[test]
fn sdwan_active_member() {
    let ms = vec![member("a", "STANDBY"), member("b", "ACTIVE"), member("c", "ACTIVE")];
    assert_eq!(active_member(&None, &ms).as_deref(), Some("b"));
    assert_eq!(active_member(&Some("z".into()), &ms).as_deref(), Some("z"));
    assert_eq!(active_member(&None, &ms[..1].iter().map(|m| member(&m.name, &m.state)).collect()), None);
    assert_eq!(member_name(&ms[1], true), ("b*".to_string(), Tone::GreenBold));
    assert_eq!(member_name(&ms[0], false), ("a".to_string(), Tone::Cyan));
}

#[test]
fn vpn_columns() {
    assert_eq!(p1(&tunnel(Some("Up"))), ("UP".to_string(), Tone::Green));
    assert_eq!(p1(&tunnel(Some("DOWN"))), ("DOWN".to_string(), Tone::Red));
    assert_eq!(p1(&tunnel(Some("negotiating"))), ("NEGOTIATING".to_string(), Tone::Yellow));
    assert_eq!(p1(&tunnel(None)), ("--".to_string(), Tone::Gray));
    assert_eq!(uptime(Some(90_000)), "1d");
    assert_eq!(uptime(Some(3_700)), "1h1m");
    assert_eq!(uptime(Some(61)), "1m");
    assert_eq!(uptime(Some(5)), "5s");
    assert_eq!(uptime(None), "--");
}

#[test]
fn times_and_ages() {
    assert_eq!(fmt_time(0), "00:00:00");
    assert_eq!(fmt_time(86_399), "23:59:59");
    assert_eq!(fmt_time(90_061), "01:01:01");
    assert_eq!(age(59), "59s");
}

#[test]
fn search_is_case_insensitive() {
    assert!(matches_search("", &["x"]));
    assert!(matches_search("  WAN ", &["port1", "Wan-Link"]));
    assert!(!matches_search("lan", &["port1", "wan"]));
}

#[test]
fn help_key_tables() {
    assert!(!global_keys().is_empty());
    assert!(!screen_keys(Screen::Routing).is_empty());
}

#[test]
fn interface_detail() {
    let mut i = iface("port1", 2048, 0);
    i.ipv4 = Some("10.0.0.1/24".into());
    i.speed_mbps = Some(10_000);
    i.mtu = Some(1500);
    let lines = detail_lines(&i);
    assert_eq!(lines.len(), 10);
    assert_eq!(lines[0], ("State     ".to_string(), "UP".to_string()));
    assert_eq!(lines[1].1, "10.0.0.1/24");
    assert_eq!(lines[2].1, "--");
    assert_eq!(lines[3].1, "10 Gbps");
    assert_eq!(lines[5].1, "1500");
    assert_eq!(lines[6], ("RX bytes  ".to_string(), "2K".to_string()));
    assert_eq!(fmt_speed(Some(100)), "100 Mbps");
    assert_eq!(fmt_speed(None), "--");
    assert_eq!(errors_tone(0), Tone::Gray);
    assert_eq!(errors_tone(3), Tone::Yellow);
    assert_eq!(detail_title("port1"), "PORT1 — DETAIL");
    assert!(interface_matches("10.0.0", &i));
    assert!(!interface_matches("wan", &i));
    let mut down = iface("wan", 0, 0);
    down.link_state = LinkState::Down;
    assert_eq!(
        interfaces_status(&vec![i, down]),
        "2 interfaces, 1 up  |  ↑/↓ select, Enter detail, Esc back"
    );
    let r = rate_series(None);
    assert!(r.rx.is_empty() && r.rx_now == 0);
    let mut st = AppState::new();
    st.update_iface_rates_at(&[iface("a", 0, 0)], 1);
    st.update_iface_rates_at(&[iface("a", 100, 200)], 2);
    st.update_iface_rates_at(&[iface("a", 300, 200)], 4);
    let r = rate_series(st.iface_rates.get(&"a".to_string()));
    assert_eq!(r.rx, vec![800, 800]);
    assert_eq!(r.tx, vec![1600, 0]);
    assert_eq!((r.rx_now, r.tx_now), (800, 0));
}

#[test]
fn list_filters() {
    let mut m = member("port4", "ACTIVE");
    m.gateway = Some("203.0.113.1".into());
    assert!(member_matches("203.0", &m));
    assert!(member_matches("active", &m));
    assert!(!member_matches("zone9", &m));
    let c = SdwanHealthCheck { name: "Default_DNS".into(), member: "port4".into(), status: Some("PASS".into()) };
    assert!(check_matches("dns", &c));
    assert!(check_matches("pass", &c));
    assert!(!check_matches("fail", &c));
    let s = FirewallSession {
        src: "10.1.1.1".into(),
        dst: "8.8.8.8".into(),
        src_port: 1,
        dst_port: 53,
        proto: "udp".into(),
        policy: Some(42),
        interface: None,
        bytes: 0,
        packets: 0,
        age_secs: 0,
    };
    assert!(session_matches("42", &s));
    assert!(session_matches("UDP", &s));
    assert!(!session_matches("port9", &s));
}

#[test]
fn refresh_results_are_taken_in() {
    let mut st = AppState::new();
    st.apply_vpn(Err("HTTP 500".into()));
    assert_eq!(st.vpn_err.as_deref(), Some("HTTP 500"));
    assert!(st.vpn.is_none());
    st.apply_vpn(Ok(vec![tunnel(Some("up"))]));
    assert_eq!(st.vpn.as_ref().map(|v: &Vec<IpsecTunnel>| v.len()), Some(1));
    st.apply_lookup(Err("boom".into()));
    assert!(st.lookup.is_none());
    st.apply_lookup(Ok(vec![]));
    assert_eq!(st.lookup_err, None);
    assert_eq!(st.lookup.as_ref().map(|v| v.len()), Some(0));

    st.apply_interfaces_at(Ok(vec![iface("wan1", 10, 10)]), 100);
    assert!(st.events.is_empty());
    let mut down = iface("wan1", 20, 20);
    down.link_state = LinkState::Down;
    st.apply_interfaces_at(Ok(vec![down]), 102);
    assert_eq!(st.events.len(), 1);
    assert_eq!(st.events[0].description, "Interface wan1 went DOWN");
    assert_eq!(st.events[0].timestamp, 102);
    st.apply_interfaces_at(Err("timeout".into()), 104);
    assert_eq!(st.interfaces_err.as_deref(), Some("timeout"));
    assert_eq!(st.interfaces.as_ref().map(|v| v.len()), Some(1));

    let sd = |s: &str| SdwanState { members: vec![member("port4", s)], health_checks: vec![], active_member: None };
    st.apply_sdwan_at(Ok(sd("STANDBY")), 1);
    assert_eq!(st.events.len(), 1);
    st.apply_sdwan_at(Ok(sd("ACTIVE")), 2);
    assert_eq!(st.events.len(), 3);
    assert!(st.events[2].description.contains("port4"));
    st.mark_refreshed(9);
    assert_eq!(st.last_refresh, Some(9));
}

#[test]
fn event_batches_keep_order_and_bound() {
    let mut st = AppState::new();
    st.push_events((0..250).map(ev).collect(), MAX_EVENTS);
    assert_eq!(st.events.len(), 200);
    assert_eq!(st.events[0].timestamp, 50);
    assert_eq!(st.events[199].timestamp, 249);
}

#[test]
fn search_bar_edits_text() {
    let mut n = Navigation::new();
    let mut st = AppState::new();
    n.dispatch(&mut st, Key::Char('/'), true);
    assert!(st.search_mode);
    for c in "wan1".chars() {
        n.dispatch(&mut st, Key::Char(c), true);
    }
    n.dispatch(&mut st, Key::Backspace, true);
    assert_eq!(st.search, "wan");
    n.dispatch(&mut st, Key::Char('é'), true);
    assert_eq!(st.search, "wané");
    n.dispatch(&mut st, Key::Char('!'), true);
    assert_eq!(st.search, "wané");
}

#[test]
fn policy_filter_matches_the_policy_number() {
    let mk = |p: Option<u32>| FirewallSession {
        src: "10.1.1.1".into(),
        dst: "8.8.8.8".into(),
        src_port: 1,
        dst_port: 53,
        proto: "udp".into(),
        policy: p,
        interface: None,
        bytes: 0,
        packets: 0,
        age_secs: 0,
    };
    assert!(session_matches("policy=123", &mk(Some(123))));
    assert!(!session_matches("policy=123", &mk(Some(7))));
    assert!(!session_matches("policy=12", &mk(Some(123))));
    assert!(!session_matches("policy=123", &mk(None)));
    assert!(session_matches("  Policy=123 ", &mk(Some(123))));
    assert!(session_matches("8.8.8", &mk(Some(7))));
    assert!(!session_matches("policy=abc", &mk(Some(7))));
}

#[test]
fn detail_shows_the_highlighted_interface() {
    let ifs = vec![iface("wan1", 0, 0), iface("port1", 0, 0), iface("wan2", 0, 0)];
    assert_eq!(detail_index(&ifs, "", 1), Some(1));
    assert_eq!(detail_index(&ifs, "wan", 1), Some(2));
    assert_eq!(detail_index(&ifs, "wan", 2), None);
    assert_eq!(detail_index(&ifs, "port", 0), Some(1));
}

#[test]
fn palette_query_is_trimmed_and_case_folded() {
    assert_eq!(
        palette_commands_for_draw(" OPEN S "),
        vec!["Open System", "Open SD-WAN", "Open Sessions"]
    );
    assert!(matches_search(" \t ", &[]));
}
