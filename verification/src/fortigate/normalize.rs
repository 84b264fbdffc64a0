//! Normalization from monitor-API documents into application models.
//!
//! Each function reads the FortiOS 8.0 response shape (the HTTP envelope with
//! `results` and the top-level `serial`/`version`/`build`) and states, member by
//! member, which field of the document each model field comes from. Missing or
//! mistyped members fall back to empty text, zero, or `None`, as the API's
//! optional fields require; no normalizer fails.

use vstd::prelude::*;
use crate::json::{
    bool_of, elements_of, f64_u64_of, get, get_in, json_array, json_bool, json_f64_as_u64,
    json_get, json_get_in, json_object, json_str, json_str_or_empty, json_to_string, json_u64,
    json_u64_or_zero, members_of, opt_chars, json_text, str_of, str_or_empty,
    u64_of, u64_or_zero, JsonValue,
};
use crate::models::{
    BgpNeighbor, BgpState, InterfaceStatus, InterfaceType, IpsecTunnel, LinkState, Route,
    SdwanHealthCheck, SdwanMember, SdwanState, SystemStatus,
};
use crate::text::{decimal, push_decimal, push_str, string_from_chars, chars_of};

verus! {

/// `s` is the system identity read from a `/system/status` document `v`.
pub open spec fn system_status_from(v: JsonValue, s: SystemStatus) -> bool {
    let results = get(v, "results"@);
    &&& s.hostname@ == str_or_empty(get_in(results, "hostname"@))
    &&& s.model@ == str_or_empty(get_in(results, "model"@))
    &&& s.serial@ == str_or_empty(get(v, "serial"@))
    &&& s.fortios@ == str_or_empty(get(v, "version"@))
    &&& s.build@ == match get(v, "build"@) {
        Some(b) => json_text(b),
        None => Seq::empty(),
    }
    &&& s.uptime_secs == 0
    &&& s.sessions == 0
    &&& s.vdoms == 0
    &&& s.ha_state is None
}

/// Hostname, model, serial, FortiOS version and build from `/system/status`.
pub fn system_status(v: &JsonValue) -> (r: Result<SystemStatus, String>)
    ensures
        r matches Ok(s) && system_status_from(*v, s),
{
    let serial = json_str_or_empty(json_get(v, "serial"));
    let version = json_str_or_empty(json_get(v, "version"));
    let build = match json_get(v, "build") {
        Some(b) => json_to_string(b),
        None => String::new(),
    };
    let results = json_get(v, "results");
    let hostname = json_str_or_empty(json_get_in(results, "hostname"));
    let model = json_str_or_empty(json_get_in(results, "model"));
    Ok(
        SystemStatus {
            hostname,
            serial,
            model,
            fortios: version,
            build,
            uptime_secs: 0,
            sessions: 0,
            vdoms: 0,
            ha_state: None,
        },
    )
}

/// The largest `current` reading among sensor entries, each taken as `f64`
/// and converted with `as u64`; none when no entry has a numeric `current`.
/// (The conversion is monotone, so this is the largest reading converted.)
pub open spec fn max_current(es: Seq<JsonValue>) -> Option<u64>
    decreases es.len(),
{
    if es.len() == 0 {
        None
    } else {
        let rest = max_current(es.drop_last());
        match f64_u64_of(get(es.last(), "current"@)) {
            None => rest,
            Some(c) => match rest {
                Some(m) if m >= c => Some(m),
                _ => Some(c),
            },
        }
    }
}

/// The session count of a `/system/resource/usage` document: the largest
/// `current` of the `session` entries, or 0.
pub open spec fn resource_sessions_of(v: JsonValue) -> u64 {
    match max_current(elements_of(get_in(get(v, "results"@), "session"@))) {
        Some(m) => m,
        None => 0,
    }
}

/// The session count reported by `/system/resource/usage`.
pub fn resource_sessions(v: &JsonValue) -> (r: u64)
    ensures
        r == resource_sessions_of(*v),
{
    let mut best: Option<u64> = None;
    match json_array(json_get_in(json_get(v, "results"), "session")) {
        Some(arr) => {
            let mut i: usize = 0;
            while i < arr.len()
                invariant
                    i <= arr@.len(),
                    arr@ == elements_of(get_in(get(*v, "results"@), "session"@)),
                    best == max_current(arr@.take(i as int)),
                decreases arr@.len() - i,
            {
                assert(arr@.take(i + 1).drop_last() =~= arr@.take(i as int));
                match json_f64_as_u64(json_get(&arr[i], "current")) {
                    Some(c) => {
                        best = match best {
                            Some(m) if m >= c => Some(m),
                            _ => Some(c),
                        };
                    },
                    None => {},
                }
                i = i + 1;
            }
            assert(arr@.take(arr@.len() as int) =~= arr@);
        },
        None => {},
    }
    match best {
        Some(m) => m,
        None => 0,
    }
}

/// The address shown for an interface: `ip/mask` (or `ip` when the mask is
/// 0); none for an empty or all-zero address.
pub open spec fn ipv4_text(ip: Seq<char>, mask: u64) -> Option<Seq<char>> {
    if ip.len() > 0 && ip != "0.0.0.0"@ {
        if mask > 0 {
            Some(ip + "/"@ + decimal(mask as nat))
        } else {
            Some(ip)
        }
    } else {
        None
    }
}

/// `i` is the interface described by the `/system/interface` entry `val`.
pub open spec fn interface_from(val: JsonValue, i: InterfaceStatus) -> bool {
    let link = match bool_of(get(val, "link"@)) {
        Some(b) => b,
        None => false,
    };
    &&& i.name@ == str_or_empty(get(val, "name"@))
    &&& opt_chars(i.ipv4) == ipv4_text(str_or_empty(get(val, "ip"@)), u64_or_zero(get(val, "mask"@)))
    &&& i.link_state == (if link {
        LinkState::Up
    } else {
        LinkState::Down
    })
    &&& i.rx_bytes == u64_or_zero(get(val, "rx_bytes"@))
    &&& i.tx_bytes == u64_or_zero(get(val, "tx_bytes"@))
    &&& i.rx_packets == u64_or_zero(get(val, "rx_packets"@))
    &&& i.tx_packets == u64_or_zero(get(val, "tx_packets"@))
    &&& i.errors == u64_or_zero(get(val, "rx_errors"@))
    &&& i.speed_mbps == f64_u64_of(get(val, "speed"@))
    &&& i.alias is None
    &&& i.iftype == InterfaceType::Physical
    &&& !i.admin_state
    &&& i.ipv6 is None
    &&& i.duplex is None
    &&& i.mtu is None
    &&& i.drops == 0
    &&& i.rx_rate_bps is None
    &&& i.tx_rate_bps is None
}

fn interface_of(val: &JsonValue) -> (i: InterfaceStatus)
    ensures
        interface_from(*val, i),
{
    let name = json_str_or_empty(json_get(val, "name"));
    let ip = json_str_or_empty(json_get(val, "ip"));
    let mask = json_u64_or_zero(json_get(val, "mask"));
    let link = match json_bool(json_get(val, "link")) {
        Some(b) => b,
        None => false,
    };
    let zero = "0.0.0.0".to_owned();
    let ipv4 = if !ip.as_str().is_empty() && !(ip == zero) {
        if mask > 0 {
            let mut out: Vec<char> = chars_of(ip.as_str());
            push_str(&mut out, "/");
            push_decimal(&mut out, mask as u128);
            Some(string_from_chars(&out))
        } else {
            Some(ip)
        }
    } else {
        None
    };
    InterfaceStatus {
        name,
        alias: None,
        iftype: InterfaceType::Physical,
        admin_state: false,
        link_state: if link {
            LinkState::Up
        } else {
            LinkState::Down
        },
        ipv4,
        ipv6: None,
        speed_mbps: json_f64_as_u64(json_get(val, "speed")),
        duplex: None,
        mtu: None,
        rx_bytes: json_u64_or_zero(json_get(val, "rx_bytes")),
        tx_bytes: json_u64_or_zero(json_get(val, "tx_bytes")),
        rx_packets: json_u64_or_zero(json_get(val, "rx_packets")),
        tx_packets: json_u64_or_zero(json_get(val, "tx_packets")),
        errors: json_u64_or_zero(json_get(val, "rx_errors")),
        drops: 0,
        rx_rate_bps: None,
        tx_rate_bps: None,
    }
}

/// One interface per member of the `results` map of `/system/interface`, in
/// the map's order.
pub fn interfaces(v: &JsonValue) -> (r: Result<Vec<InterfaceStatus>, String>)
    ensures
        r matches Ok(out) && {
            let entries = members_of(get(*v, "results"@));
            &&& out@.len() == entries.len()
            &&& forall|k: int| 0 <= k < entries.len() ==> interface_from(entries[k].1, #[trigger] out@[k])
        },
{
    let mut out: Vec<InterfaceStatus> = Vec::new();
    match json_object(json_get(v, "results")) {
        Some(map) => {
            let mut i: usize = 0;
            while i < map.len()
                invariant
                    i <= map@.len(),
                    map@ == members_of(get(*v, "results"@)),
                    out@.len() == i,
                    forall|k: int| 0 <= k < i ==> interface_from(map@[k].1, #[trigger] out@[k]),
                decreases map@.len() - i,
            {
                out.push(interface_of(&map[i].1));
                i = i + 1;
            }
        },
        None => {},
    }
    Ok(out)
}

/// `m` is the SD-WAN member described by the `/virtual-wan/members` entry `e`:
/// named after its interface, `ACTIVE` when its link is `up` and `DOWN`
/// otherwise (a missing link counts as down).
pub open spec fn sdwan_member_from(e: JsonValue, m: SdwanMember) -> bool {
    let link = match str_of(get(e, "link"@)) {
        Some(l) => l,
        None => "down"@,
    };
    &&& m.interface@ == str_or_empty(get(e, "interface"@))
    &&& m.name@ == m.interface@
    &&& m.state@ == (if link == "up"@ {
        "ACTIVE"@
    } else {
        "DOWN"@
    })
    &&& m.tx_rate_bps == u64_of(get(e, "tx_bandwidth"@))
    &&& m.rx_rate_bps == u64_of(get(e, "rx_bandwidth"@))
    &&& m.sessions == u64_or_zero(get(e, "session"@))
    &&& m.zone is None
    &&& m.gateway is None
    &&& m.sla is None
}

fn sdwan_member_of(e: &JsonValue) -> (m: SdwanMember)
    ensures
        sdwan_member_from(*e, m),
{
    let link = match json_str(json_get(e, "link")) {
        Some(l) => l,
        None => "down".to_owned(),
    };
    let interface = json_str_or_empty(json_get(e, "interface"));
    let up = "up".to_owned();
    let state = if link == up {
        "ACTIVE".to_owned()
    } else {
        "DOWN".to_owned()
    };
    SdwanMember {
        name: interface.clone(),
        interface,
        zone: None,
        gateway: None,
        state,
        sla: None,
        tx_rate_bps: json_u64(json_get(e, "tx_bandwidth")),
        rx_rate_bps: json_u64(json_get(e, "rx_bandwidth")),
        sessions: json_u64_or_zero(json_get(e, "session")),
    }
}

/// `out` holds one member per element of the `results` array of a
/// `/virtual-wan/members` document `v`, in order.
pub open spec fn sdwan_members_from(v: JsonValue, out: Seq<SdwanMember>) -> bool {
    let arr = elements_of(get(v, "results"@));
    &&& out.len() == arr.len()
    &&& forall|k: int| 0 <= k < arr.len() ==> sdwan_member_from(arr[k], #[trigger] out[k])
}

/// One member per element of the `results` array of `/virtual-wan/members`.
pub fn sdwan_members(v: &JsonValue) -> (r: Result<Vec<SdwanMember>, String>)
    ensures
        r matches Ok(out) && sdwan_members_from(*v, out@),
{
    let mut out: Vec<SdwanMember> = Vec::new();
    match json_array(json_get(v, "results")) {
        Some(arr) => {
            let mut i: usize = 0;
            while i < arr.len()
                invariant
                    i <= arr@.len(),
                    arr@ == elements_of(get(*v, "results"@)),
                    out@.len() == i,
                    forall|k: int| 0 <= k < i ==> sdwan_member_from(arr@[k], #[trigger] out@[k]),
                decreases arr@.len() - i,
            {
                out.push(sdwan_member_of(&arr[i]));
                i = i + 1;
            }
        },
        None => {},
    }
    Ok(out)
}

/// The status shown for a health-check result: `up` is `PASS`, `down` is
/// `FAIL`, anything else is shown as reported (a missing status as empty).
pub open spec fn health_status_label(raw: Seq<char>) -> Seq<char> {
    if raw == "up"@ {
        "PASS"@
    } else if raw == "down"@ {
        "FAIL"@
    } else {
        raw
    }
}

/// A health check as (check name, member, status).
pub open spec fn check_view(c: SdwanHealthCheck) -> (Seq<char>, Seq<char>, Option<Seq<char>>) {
    (c.name@, c.member@, opt_chars(c.status))
}

/// The results of one health check: one per member of its per-member map.
pub open spec fn member_checks(name: Seq<char>, mm: Seq<(String, JsonValue)>) -> Seq<
    (Seq<char>, Seq<char>, Option<Seq<char>>),
> {
    Seq::new(
        mm.len(),
        |j: int| (name, mm[j].0@, Some(health_status_label(str_or_empty(get(mm[j].1, "status"@))))),
    )
}

/// All health-check results of a `/virtual-wan/health-check` `results` map,
/// check by check, member by member (a check whose value is not an object
/// contributes nothing).
pub open spec fn checks_of(m: Seq<(String, JsonValue)>) -> Seq<
    (Seq<char>, Seq<char>, Option<Seq<char>>),
>
    decreases m.len(),
{
    if m.len() == 0 {
        Seq::empty()
    } else {
        checks_of(m.drop_last()) + member_checks(m.last().0@, members_of(Some(m.last().1)))
    }
}

fn health_label(raw: String) -> (r: String)
    ensures
        r@ == health_status_label(raw@),
{
    let up = "up".to_owned();
    let down = "down".to_owned();
    if raw == up {
        "PASS".to_owned()
    } else if raw == down {
        "FAIL".to_owned()
    } else {
        raw
    }
}

/// Health checks as (check name, member, status).
pub open spec fn check_views(checks: Seq<SdwanHealthCheck>) -> Seq<(Seq<char>, Seq<char>, Option<Seq<char>>)> {
    checks.map_values(|c: SdwanHealthCheck| check_view(c))
}

/// `checks` are the health checks of a `/virtual-wan/health-check`
/// document `v`.
pub open spec fn health_checks_from(v: JsonValue, checks: Seq<SdwanHealthCheck>) -> bool {
    check_views(checks) == checks_of(
        members_of(get(v, "results"@)),
    )
}

/// The health-check results of `/virtual-wan/health-check`, flattened check
/// by check and member by member; no members and no selected member.
pub fn sdwan_health_check(v: &JsonValue) -> (r: Result<SdwanState, String>)
    ensures
        r matches Ok(st) && health_checks_from(*v, st.health_checks@) && st.members@.len() == 0
            && st.active_member is None,
{
    let mut checks: Vec<SdwanHealthCheck> = Vec::new();
    match json_object(json_get(v, "results")) {
        Some(map) => {
            let mut i: usize = 0;
            while i < map.len()
                invariant
                    i <= map@.len(),
                    map@ == members_of(get(*v, "results"@)),
                    check_views(checks@) == checks_of(
                        map@.take(i as int),
                    ),
                decreases map@.len() - i,
            {
                let ghost before = check_views(checks@);
                let name = &map[i].0;
                let mm_opt = json_object(Some(&map[i].1));
                let ghost mm = members_of(Some(map@[i as int].1));
                match mm_opt {
                    Some(mm_vec) => {
                        let mut j: usize = 0;
                        while j < mm_vec.len()
                            invariant
                                j <= mm_vec@.len(),
                                i < map@.len(),
                                mm_vec@ == mm,
                                name@ == map@[i as int].0@,
                                check_views(checks@) == before
                                    + member_checks(name@, mm.take(j as int)),
                            decreases mm_vec@.len() - j,
                        {
                            let raw = json_str_or_empty(json_get(&mm_vec[j].1, "status"));
                            let status = health_label(raw);
                            let c = SdwanHealthCheck {
                                name: name.clone(),
                                member: mm_vec[j].0.clone(),
                                status: Some(status),
                            };
                            let ghost prev = checks@;
                            checks.push(c);
                            assert(check_views(checks@)
                                =~= check_views(prev).push(
                                check_view(c),
                            ));
                            assert(member_checks(name@, mm.take(j + 1)) =~= member_checks(
                                name@,
                                mm.take(j as int),
                            ).push(check_view(c)));
                            assert(check_views(checks@)
                                =~= before + member_checks(name@, mm.take(j + 1)));
                            j = j + 1;
                        }
                        assert(mm.take(mm.len() as int) =~= mm);
                    },
                    None => {
                        assert(mm.len() == 0);
                        assert(member_checks(name@, mm) =~= Seq::empty());
                        assert(before + member_checks(name@, mm) =~= before);
                    },
                }
                assert(map@.take(i + 1).drop_last() =~= map@.take(i as int));
                assert(checks_of(map@.take(i + 1)) == checks_of(map@.take(i as int))
                    + member_checks(map@[i as int].0@, mm));
                i = i + 1;
            }
            assert(map@.take(map@.len() as int) =~= map@);
        },
        None => {
            assert(checks_of(members_of(get(*v, "results"@))) =~= Seq::empty());
        },
    }
    assert(check_views(checks@) == checks_of(members_of(get(*v, "results"@))));
    assert(health_checks_from(*v, checks@));
    Ok(SdwanState { members: Vec::new(), health_checks: checks, active_member: None })
}

/// `t` is the tunnel described by the `/vpn/ipsec` entry `e`.
pub open spec fn ipsec_tunnel_from(e: JsonValue, t: IpsecTunnel) -> bool {
    &&& t.name@ == str_or_empty(get(e, "name"@))
    &&& opt_chars(t.phase1_state) == str_of(get(e, "status"@))
    &&& opt_chars(t.ike_version) == str_of(get(e, "ike_version"@))
    &&& opt_chars(t.remote_gateway) == str_of(get(e, "remote_gw"@))
    &&& t.rx_bytes == u64_or_zero(get(e, "rx_bytes"@))
    &&& t.tx_bytes == u64_or_zero(get(e, "tx_bytes"@))
    &&& t.phase2_state is None
    &&& t.local_gateway is None
    &&& t.encryption is None
    &&& t.authentication is None
    &&& t.rekey_secs is None
    &&& t.uptime_secs is None
    &&& t.last_change is None
    &&& t.key_exchange is None
    &&& t.pqc_signature is None
    &&& t.pqc_ppk is None
}

fn ipsec_tunnel_of(e: &JsonValue) -> (t: IpsecTunnel)
    ensures
        ipsec_tunnel_from(*e, t),
{
    IpsecTunnel {
        name: json_str_or_empty(json_get(e, "name")),
        phase1_state: json_str(json_get(e, "status")),
        phase2_state: None,
        remote_gateway: json_str(json_get(e, "remote_gw")),
        local_gateway: None,
        ike_version: json_str(json_get(e, "ike_version")),
        encryption: None,
        authentication: None,
        rekey_secs: None,
        rx_bytes: json_u64_or_zero(json_get(e, "rx_bytes")),
        tx_bytes: json_u64_or_zero(json_get(e, "tx_bytes")),
        uptime_secs: None,
        last_change: None,
        key_exchange: None,
        pqc_signature: None,
        pqc_ppk: None,
    }
}

/// One tunnel per element of the `results` array of `/vpn/ipsec`.
pub fn ipsec_tunnels(v: &JsonValue) -> (r: Result<Vec<IpsecTunnel>, String>)
    ensures
        r matches Ok(out) && {
            let arr = elements_of(get(*v, "results"@));
            &&& out@.len() == arr.len()
            &&& forall|k: int| 0 <= k < arr.len() ==> ipsec_tunnel_from(arr[k], #[trigger] out@[k])
        },
{
    let mut out: Vec<IpsecTunnel> = Vec::new();
    match json_array(json_get(v, "results")) {
        Some(arr) => {
            let mut i: usize = 0;
            while i < arr.len()
                invariant
                    i <= arr@.len(),
                    arr@ == elements_of(get(*v, "results"@)),
                    out@.len() == i,
                    forall|k: int| 0 <= k < i ==> ipsec_tunnel_from(arr@[k], #[trigger] out@[k]),
                decreases arr@.len() - i,
            {
                out.push(ipsec_tunnel_of(&arr[i]));
                i = i + 1;
            }
        },
        None => {},
    }
    Ok(out)
}

/// Each tunnel of a `/vpn/ipsec` document counts as received bytes the
/// number under its entry's `rx_bytes` member and as sent bytes the number
/// under `tx_bytes` (0 where the member is missing or not an unsigned
/// integer); a tunnel takes its name from `name`.
pub proof fn law_tunnel_counters(v: JsonValue, out: Seq<IpsecTunnel>)
    requires
        out.len() == elements_of(get(v, "results"@)).len(),
        forall|k: int|
            0 <= k < out.len() ==> ipsec_tunnel_from(
                elements_of(get(v, "results"@))[k],
                #[trigger] out[k],
            ),
    ensures
        forall|k: int|
            0 <= k < out.len() ==> {
                let e = elements_of(get(v, "results"@))[k];
                &&& (#[trigger] out[k]).rx_bytes == u64_or_zero(get(e, "rx_bytes"@))
                &&& out[k].tx_bytes == u64_or_zero(get(e, "tx_bytes"@))
                &&& out[k].name@ == str_or_empty(get(e, "name"@))
            },
{
}

/// An optional 64-bit number narrowed with `as u32`.
pub open spec fn narrow_u32(o: Option<u64>) -> Option<u32> {
    match o {
        Some(a) => Some(a as u32),
        None => None,
    }
}

fn narrow(o: Option<u64>) -> (r: Option<u32>)
    ensures
        r == narrow_u32(o),
{
    match o {
        Some(a) => Some(#[verifier::truncate] (a as u32)),
        None => None,
    }
}

/// `n` is the peer described by the BGP neighbor entry `e`.
pub open spec fn bgp_neighbor_from(e: JsonValue, n: BgpNeighbor) -> bool {
    &&& n.address@ == str_or_empty(get(e, "remote_host"@))
    &&& n.remote_as == narrow_u32(u64_of(get(e, "remote_as"@)))
    &&& n.state@ == str_or_empty(get(e, "state"@))
    &&& n.rx_prefixes == u64_or_zero(get(e, "rx_pfx"@))
    &&& n.tx_prefixes == u64_or_zero(get(e, "tx_pfx"@))
    &&& n.local_as is None
    &&& n.uptime_secs is None
    &&& n.family@.len() == 0
}

fn bgp_neighbor_of(e: &JsonValue) -> (n: BgpNeighbor)
    ensures
        bgp_neighbor_from(*e, n),
{
    BgpNeighbor {
        address: json_str_or_empty(json_get(e, "remote_host")),
        local_as: None,
        remote_as: narrow(json_u64(json_get(e, "remote_as"))),
        state: json_str_or_empty(json_get(e, "state")),
        uptime_secs: None,
        rx_prefixes: json_u64_or_zero(json_get(e, "rx_pfx")),
        tx_prefixes: json_u64_or_zero(json_get(e, "tx_pfx")),
        family: String::new(),
    }
}

/// `st` is the BGP state read from a `/router/bgp/neighbors` document `v`.
pub open spec fn bgp_state_from(v: JsonValue, st: BgpState) -> bool {
    let results = get(v, "results"@);
    let arr = elements_of(get_in(results, "neighbors"@));
    &&& opt_chars(st.router_id) == str_of(get_in(results, "router_id"@))
    &&& st.local_as is None
    &&& st.neighbors@.len() == arr.len()
    &&& forall|k: int| 0 <= k < arr.len() ==> bgp_neighbor_from(arr[k], #[trigger] st.neighbors@[k])
}

/// The router id and one peer per element of `results.neighbors` of
/// `/router/bgp/neighbors`; the local AS is not reported.
pub fn bgp_neighbors(v: &JsonValue) -> (r: Result<BgpState, String>)
    ensures
        r matches Ok(st) && bgp_state_from(*v, st),
{
    let results = json_get(v, "results");
    let router_id = json_str(json_get_in(results, "router_id"));
    let mut neighbors: Vec<BgpNeighbor> = Vec::new();
    match json_array(json_get_in(results, "neighbors")) {
        Some(arr) => {
            let mut i: usize = 0;
            while i < arr.len()
                invariant
                    i <= arr@.len(),
                    arr@ == elements_of(get_in(get(*v, "results"@), "neighbors"@)),
                    neighbors@.len() == i,
                    forall|k: int|
                        0 <= k < i ==> bgp_neighbor_from(arr@[k], #[trigger] neighbors@[k]),
                decreases arr@.len() - i,
            {
                neighbors.push(bgp_neighbor_of(&arr[i]));
                i = i + 1;
            }
        },
        None => {},
    }
    Ok(BgpState { router_id, local_as: None, neighbors })
}

/// Each interface of a `/system/interface` document counts the numbers under
/// its entry's members of the same name: received and sent bytes from
/// `rx_bytes` and `tx_bytes`, received and sent packets from `rx_packets` and
/// `tx_packets`, errors from `rx_errors` (0 where a member is missing or not
/// an unsigned integer).
pub proof fn law_interface_counters(v: JsonValue, out: Seq<InterfaceStatus>)
    requires
        out.len() == members_of(get(v, "results"@)).len(),
        forall|k: int|
            0 <= k < out.len() ==> interface_from(
                members_of(get(v, "results"@))[k].1,
                #[trigger] out[k],
            ),
    ensures
        forall|k: int|
            0 <= k < out.len() ==> {
                let e = members_of(get(v, "results"@))[k].1;
                &&& (#[trigger] out[k]).rx_bytes == u64_or_zero(get(e, "rx_bytes"@))
                &&& out[k].tx_bytes == u64_or_zero(get(e, "tx_bytes"@))
                &&& out[k].rx_packets == u64_or_zero(get(e, "rx_packets"@))
                &&& out[k].tx_packets == u64_or_zero(get(e, "tx_packets"@))
                &&& out[k].errors == u64_or_zero(get(e, "rx_errors"@))
            },
{
}

/// Each BGP peer of a `/router/bgp/neighbors` document counts as received
/// prefixes the number under its entry's `rx_pfx` member and as advertised
/// prefixes the number under `tx_pfx` (0 where missing or not an unsigned
/// integer), and takes its address from `remote_host`.
pub proof fn law_bgp_prefix_counters(v: JsonValue, st: BgpState)
    requires
        bgp_state_from(v, st),
    ensures
        forall|k: int|
            0 <= k < st.neighbors@.len() ==> {
                let e = elements_of(get_in(get(v, "results"@), "neighbors"@))[k];
                &&& (#[trigger] st.neighbors@[k]).rx_prefixes == u64_or_zero(get(e, "rx_pfx"@))
                &&& st.neighbors@[k].tx_prefixes == u64_or_zero(get(e, "tx_pfx"@))
                &&& st.neighbors@[k].address@ == str_or_empty(get(e, "remote_host"@))
            },
{
}

/// The protocol shown for a route: `sd-wan` when its origin is SD-WAN
/// (`sd-wan` or `sdwan`), else its reported type.
pub open spec fn route_protocol(kind: Seq<char>, origin: Seq<char>) -> Seq<char> {
    if origin == "sd-wan"@ || origin == "sdwan"@ {
        "sd-wan"@
    } else {
        kind
    }
}

/// `r` is the route of `family` described by the routing-table entry `e`.
pub open spec fn route_from(e: JsonValue, family: Seq<char>, r: Route) -> bool {
    &&& r.prefix@ == str_or_empty(get(e, "ip_mask"@))
    &&& r.family@ == family
    &&& r.protocol@ == route_protocol(str_or_empty(get(e, "type"@)), str_or_empty(get(e, "origin"@)))
    &&& opt_chars(r.next_hop) == str_of(get(e, "gateway"@))
    &&& opt_chars(r.interface) == str_of(get(e, "interface"@))
    &&& r.distance == narrow_u32(u64_of(get(e, "distance"@)))
    &&& r.metric == narrow_u32(u64_of(get(e, "metric"@)))
    &&& !r.active
}

fn route_of(e: &JsonValue, family: &str) -> (r: Route)
    ensures
        route_from(*e, family@, r),
{
    let protocol = json_str_or_empty(json_get(e, "type"));
    let origin = json_str_or_empty(json_get(e, "origin"));
    let sdwan1 = "sd-wan".to_owned();
    let sdwan2 = "sdwan".to_owned();
    let proto = if origin == sdwan1 || origin == sdwan2 {
        "sd-wan".to_owned()
    } else {
        protocol
    };
    Route {
        prefix: json_str_or_empty(json_get(e, "ip_mask")),
        family: family.to_owned(),
        protocol: proto,
        next_hop: json_str(json_get(e, "gateway")),
        interface: json_str(json_get(e, "interface")),
        distance: narrow(json_u64(json_get(e, "distance"))),
        metric: narrow(json_u64(json_get(e, "metric"))),
        active: false,
    }
}

/// One route of `family` per element of the `results` array of
/// `/router/ipv4` or `/router/ipv6`.
pub fn routes(v: &JsonValue, family: &str) -> (r: Result<Vec<Route>, String>)
    ensures
        r matches Ok(out) && {
            let arr = elements_of(get(*v, "results"@));
            &&& out@.len() == arr.len()
            &&& forall|k: int| 0 <= k < arr.len() ==> route_from(arr[k], family@, #[trigger] out@[k])
        },
{
    let mut out: Vec<Route> = Vec::new();
    match json_array(json_get(v, "results")) {
        Some(arr) => {
            let mut i: usize = 0;
            while i < arr.len()
                invariant
                    i <= arr@.len(),
                    arr@ == elements_of(get(*v, "results"@)),
                    out@.len() == i,
                    forall|k: int| 0 <= k < i ==> route_from(arr@[k], family@, #[trigger] out@[k]),
                decreases arr@.len() - i,
            {
                out.push(route_of(&arr[i], family));
                i = i + 1;
            }
        },
        None => {},
    }
    Ok(out)
}

/// The identity read from `/system/status` keeps each field apart: the
/// serial number is the top-level `serial`, the FortiOS version the top-level
/// `version`, and hostname and model come from `results`.
pub proof fn law_status_identity(v: JsonValue, s: SystemStatus)
    requires
        system_status_from(v, s),
    ensures
        s.serial@ == str_or_empty(get(v, "serial"@)),
        s.fortios@ == str_or_empty(get(v, "version"@)),
        s.hostname@ == str_or_empty(get_in(get(v, "results"@), "hostname"@)),
        s.model@ == str_or_empty(get_in(get(v, "results"@), "model"@)),
{
}

/// An SD-WAN member read from `/virtual-wan/members` is ACTIVE exactly when
/// its `link` is `up` and DOWN otherwise; its send rate is the entry's
/// `tx_bandwidth`, its receive rate the entry's `rx_bandwidth`, and its name
/// that of its interface.
pub proof fn law_member_fields(e: JsonValue, m: SdwanMember)
    requires
        sdwan_member_from(e, m),
    ensures
        str_of(get(e, "link"@)) == Some("up"@) ==> m.state@ == "ACTIVE"@,
        str_of(get(e, "link"@)) != Some("up"@) ==> m.state@ == "DOWN"@,
        m.tx_rate_bps == u64_of(get(e, "tx_bandwidth"@)),
        m.rx_rate_bps == u64_of(get(e, "rx_bandwidth"@)),
        m.name@ == str_or_empty(get(e, "interface"@)),
{
    reveal_strlit("down");
    reveal_strlit("up");
    assert("down"@.len() == 4 && "up"@.len() == 2);
}

/// A health-check status `up` is shown as PASS, `down` as FAIL, and any
/// other status as reported.
pub proof fn law_health_labels(raw: Seq<char>)
    ensures
        raw == "up"@ ==> health_status_label(raw) == "PASS"@,
        raw == "down"@ ==> health_status_label(raw) == "FAIL"@,
        raw != "up"@ && raw != "down"@ ==> health_status_label(raw) == raw,
{
    reveal_strlit("down");
    reveal_strlit("up");
    assert("down"@.len() == 4 && "up"@.len() == 2);
}

/// The session count of `/system/resource/usage` is the largest `current`
/// reading of its entries: no entry reads more, and when some entry has a
/// reading, one of them reads exactly the count.
pub proof fn law_sessions_is_largest(es: Seq<JsonValue>)
    ensures
        forall|k: int|
            0 <= k < es.len() ==> (f64_u64_of(get(#[trigger] es[k], "current"@)) matches Some(c)
                ==> max_current(es) matches Some(m) && c <= m),
        max_current(es) matches Some(m) ==> exists|k: int|
            0 <= k < es.len() && f64_u64_of(get(#[trigger] es[k], "current"@)) == Some(m),
    decreases es.len(),
{
    if es.len() > 0 {
        let front = es.drop_last();
        law_sessions_is_largest(front);
        assert forall|k: int| 0 <= k < front.len() implies #[trigger] front[k] == es[k] by {}
        assert(es[es.len() - 1] == es.last());
        assert forall|k: int|
            0 <= k < es.len() && (f64_u64_of(get(#[trigger] es[k], "current"@)) is Some) implies (
            max_current(es) matches Some(m) && f64_u64_of(get(es[k], "current"@))->0 <= m) by {
            if k < front.len() {
                assert(front[k] == es[k]);
            }
        }
        if max_current(es) is Some && max_current(es) != max_current(front) {
            assert(f64_u64_of(get(es[es.len() - 1], "current"@)) == max_current(es));
        }
        if let Some(m) = max_current(front) {
            if max_current(es) == max_current(front) {
                let k = choose|k: int|
                    0 <= k < front.len() && f64_u64_of(get(#[trigger] front[k], "current"@))
                        == Some(m);
                assert(front[k] == es[k]);
            }
        }
    }
}

} // verus!
