//! The direct FortiGate backend: the decisions it makes around the HTTPS
//! requests, which the terminal layer performs. Read-only.

use vstd::prelude::*;
use crate::backend::capabilities::{caps, Capabilities};
use crate::backend::traits::AddressFamily;
use crate::config::credentials;
use crate::config::credentials::{env_token_for, opt_str};
use crate::config::profiles::Profile;
use crate::fortigate::endpoints;
use crate::fortigate::normalize::{
    bgp_neighbors, bgp_state_from, health_checks_from, resource_sessions, resource_sessions_of,
    sdwan_health_check, sdwan_members, sdwan_members_from, system_status, system_status_from,
};
use crate::json::JsonValue;
use crate::models::{BgpState, SdwanState, SystemStatus};
use crate::text::{push_str, string_from_chars};

verus! {

/// What the HTTPS client of a direct backend is built from.
#[derive(Debug, PartialEq, Eq)]
pub struct ClientSettings {
    pub host: String,
    pub port: u16,
    /// The API token sent as a bearer token.
    pub token: String,
    /// Whether the server certificate is verified.
    pub verify_tls: bool,
}

/// The error when neither the profile nor the environment has a token.
pub open spec fn no_api_token_message(credential: Seq<char>) -> Seq<char> {
    "no API token available for "@ + credential
}

/// Client settings for a profile: the profile's own token if it has one,
/// else the token its environment gives (`profile_var` is the value of the
/// profile's variable `FORTITUI_<PROFILE>`, `env_token` that of
/// `FORTITUI_TOKEN`, each `None` when unset; the first set and not empty is
/// used); TLS is verified unless the profile turns it off or `insecure` is
/// given.
pub fn from_profile(
    profile: &Profile,
    insecure: bool,
    profile_var: Option<&str>,
    env_token: Option<&str>,
) -> (r: Result<ClientSettings, String>)
    ensures
        match profile.token {
            Some(t) => r matches Ok(c) && c.token@ == t@,
            None => match env_token_for(opt_str(profile_var), opt_str(env_token)) {
                Some(t) => r matches Ok(c) && c.token@ == t,
                None => r matches Err(e) && e@ == no_api_token_message(profile.credential@),
            },
        },
        r matches Ok(c) ==> c.host@ == profile.host@ && c.port == profile.port && c.verify_tls == (
        profile.verify_tls && !insecure),
{
    let token = match &profile.token {
        Some(t) => t.clone(),
        None => match credentials::get(profile_var, env_token, profile.credential.as_str()) {
            Ok(t) => t,
            Err(_) => {
                let mut out: Vec<char> = Vec::new();
                push_str(&mut out, "no API token available for ");
                push_str(&mut out, profile.credential.as_str());
                return Err(string_from_chars(&out));
            },
        },
    };
    Ok(
        ClientSettings {
            host: profile.host.clone(),
            port: profile.port,
            token,
            verify_tls: profile.verify_tls && !insecure,
        },
    )
}

/// The routing-table endpoint and family name for an address family.
pub fn route_source(family: AddressFamily) -> (r: (&'static str, &'static str))
    ensures
        family == AddressFamily::Ipv4 ==> r.0@ == endpoints::router::IPV4@ && r.1@ == "ipv4"@,
        family == AddressFamily::Ipv6 ==> r.0@ == endpoints::router::IPV6@ && r.1@ == "ipv6"@,
{
    match family {
        AddressFamily::Ipv4 => (endpoints::router::IPV4, "ipv4"),
        AddressFamily::Ipv6 => (endpoints::router::IPV6, "ipv6"),
    }
}

/// System identity from `/system/status` with the session count from
/// `/system/resource/usage`.
pub fn system_status_of(status: &JsonValue, usage: &JsonValue) -> (r: Result<SystemStatus, String>)
    ensures
        r matches Ok(s) && system_status_from(*status, SystemStatus { sessions: 0, ..s })
            && s.sessions == resource_sessions_of(*usage),
{
    let mut s = match system_status(status) {
        Ok(s) => s,
        Err(e) => return Err(e),
    };
    let ghost s0 = s;
    s.sessions = resource_sessions(usage);
    assert(SystemStatus { sessions: 0, ..s } == s0);
    Ok(s)
}

/// SD-WAN state: the members from `/virtual-wan/members` and the health
/// checks from `/virtual-wan/health-check`.
pub fn sdwan_of(members: &JsonValue, health: &JsonValue) -> (r: Result<SdwanState, String>)
    ensures
        r matches Ok(st) && sdwan_members_from(*members, st.members@) && health_checks_from(
            *health,
            st.health_checks@,
        ) && st.active_member is None,
{
    let ms = match sdwan_members(members) {
        Ok(ms) => ms,
        Err(e) => return Err(e),
    };
    let mut st = match sdwan_health_check(health) {
        Ok(st) => st,
        Err(e) => return Err(e),
    };
    st.members = ms;
    Ok(st)
}

/// BGP state from the neighbors request; a failed request (BGP is not
/// present on every unit) gives the empty state.
pub fn bgp_of(fetched: &Result<JsonValue, String>) -> (r: Result<BgpState, String>)
    ensures
        match fetched {
            Ok(raw) => r matches Ok(st) && bgp_state_from(*raw, st),
            Err(_) => r matches Ok(st) && st.router_id is None && st.local_as is None
                && st.neighbors@.len() == 0,
        },
{
    match fetched {
        Ok(raw) => bgp_neighbors(raw),
        Err(_) => Ok(BgpState::empty()),
    }
}

/// The capabilities of the direct backend.
pub open spec fn direct_capability_set() -> Set<Seq<char>> {
    set![
        caps::SYSTEM@,
        caps::INTERFACES@,
        caps::SDWAN@,
        caps::IPSEC@,
        caps::ROUTING@,
        caps::FIREWALL@,
        caps::SESSIONS@,
        caps::DIAGNOSTICS@,
    ]
}

/// What the direct backend can do: system, interfaces, SD-WAN, IPsec,
/// routing, firewall, sessions and diagnostics; not BGP, OSPF or logs.
pub fn capabilities() -> (c: Capabilities)
    ensures
        c.wf(),
        c@ == direct_capability_set(),
        !c@.contains(caps::BGP@),
        !c@.contains(caps::OSPF@),
        !c@.contains(caps::LOGS@),
{
    let mut c = Capabilities::new();
    c.insert(caps::SYSTEM);
    c.insert(caps::INTERFACES);
    c.insert(caps::SDWAN);
    c.insert(caps::IPSEC);
    c.insert(caps::ROUTING);
    c.insert(caps::FIREWALL);
    c.insert(caps::SESSIONS);
    c.insert(caps::DIAGNOSTICS);
    proof {
        reveal_strlit("system");
        reveal_strlit("interfaces");
        reveal_strlit("sdwan");
        reveal_strlit("ipsec");
        reveal_strlit("routing");
        reveal_strlit("firewall");
        reveal_strlit("sessions");
        reveal_strlit("diagnostics");
        reveal_strlit("bgp");
        reveal_strlit("ospf");
        reveal_strlit("logs");
        assert(c@ =~= direct_capability_set());
        assert(caps::BGP@.len() == 3 && caps::OSPF@.len() == 4 && caps::LOGS@.len() == 4);
    }
    c
}

} // verus!
