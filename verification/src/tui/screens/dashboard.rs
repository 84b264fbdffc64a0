//! Dashboard screen: uptime text and the situational-awareness summaries.

use vstd::prelude::*;
use crate::models::{BgpState, IpsecTunnel, SdwanMember};
use crate::text::{decimal, push_decimal, push_str, str_eq, string_from_chars};
use crate::tui::screens::routing::{established_count, is_established};
use crate::tui::screens::{count_where, lemma_count_where_len, lemma_count_where_push, Tone};

verus! {

/// Uptime as whole days and hours: `Xd Yh`.
pub open spec fn uptime_text(secs: nat) -> Seq<char> {
    decimal(secs / 86400) + "d "@ + decimal((secs % 86400) / 3600) + "h"@
}

/// Formats an uptime for the dashboard's system panel.
pub fn fmt_uptime(secs: u64) -> (s: String)
    ensures
        s@ == uptime_text(secs as nat),
{
    let mut out: Vec<char> = Vec::new();
    push_decimal(&mut out, (secs / 86400) as u128);
    push_str(&mut out, "d ");
    push_decimal(&mut out, ((secs % 86400) / 3600) as u128);
    push_str(&mut out, "h");
    string_from_chars(&out)
}

/// An SD-WAN member that is carrying or ready to carry traffic.
pub open spec fn member_ok(m: SdwanMember) -> bool {
    m.state@ == "ACTIVE"@ || m.state@ == "STANDBY"@
}

/// Whether a member is active or standby.
pub fn member_is_ok(m: &SdwanMember) -> (b: bool)
    ensures
        b == member_ok(*m),
{
    str_eq(m.state.as_str(), "ACTIVE") || str_eq(m.state.as_str(), "STANDBY")
}

/// How many members are neither active nor standby.
pub fn degraded_count(members: &Vec<SdwanMember>) -> (c: usize)
    ensures
        c == count_where(members@, |m: SdwanMember| !member_ok(m)),
{
    let ghost p = |m: SdwanMember| !member_ok(m);
    let mut c: usize = 0;
    let mut i: usize = 0;
    while i < members.len()
        invariant
            i <= members@.len(),
            p == (|m: SdwanMember| !member_ok(m)),
            c == count_where(members@.take(i as int), p),
        decreases members@.len() - i,
    {
        proof {
            lemma_count_where_push(members@, p, i as int);
            lemma_count_where_len(members@.take(i as int), p);
        }
        if !member_is_ok(&members[i]) {
            c = c + 1;
        }
        i = i + 1;
    }
    assert(members@.take(members@.len() as int) =~= members@);
    c
}

/// The SD-WAN health word: `healthy` in green when no member is down, else
/// `member down` in yellow.
pub fn sdwan_health(members: &Vec<SdwanMember>) -> (r: (&'static str, Tone))
    ensures
        count_where(members@, |m: SdwanMember| !member_ok(m)) == 0 ==> r.0@ == "healthy"@ && r.1
            == Tone::Green,
        count_where(members@, |m: SdwanMember| !member_ok(m)) > 0 ==> r.0@ == "member down"@
            && r.1 == Tone::Yellow,
{
    if degraded_count(members) == 0 {
        ("healthy", Tone::Green)
    } else {
        ("member down", Tone::Yellow)
    }
}

/// The BGP health label and tone: `{established}/{total} established`, green
/// only when there are neighbors and all are established.
pub fn bgp_health(bgp: &BgpState) -> (r: (String, Tone))
    ensures
        ({
            let est = count_where(bgp.neighbors@, |n| is_established(n));
            let total = bgp.neighbors@.len();
            &&& r.0@ == decimal(est) + "/"@ + decimal(total) + " established"@
            &&& r.1 == (if total > 0 && est == total {
                Tone::Green
            } else {
                Tone::Yellow
            })
        }),
{
    let est = established_count(&bgp.neighbors);
    let total = bgp.neighbors.len();
    let mut out: Vec<char> = Vec::new();
    push_decimal(&mut out, est as u128);
    push_str(&mut out, "/");
    push_decimal(&mut out, total as u128);
    push_str(&mut out, " established");
    let tone = if total > 0 && est == total {
        Tone::Green
    } else {
        Tone::Yellow
    };
    (string_from_chars(&out), tone)
}

/// The SD-WAN panel reports no degraded member exactly when every member is
/// ACTIVE or STANDBY; a member in any other state (DOWN, say) is degraded.
pub proof fn law_degraded_members(members: Seq<SdwanMember>)
    ensures
        count_where(members, |m: SdwanMember| !member_ok(m)) == 0 <==> forall|i: int|
            0 <= i < members.len() ==> (#[trigger] members[i]).state@ == "ACTIVE"@
                || members[i].state@ == "STANDBY"@,
    decreases members.len(),
{
    if members.len() > 0 {
        let front = members.drop_last();
        law_degraded_members(front);
        assert forall|i: int| 0 <= i < front.len() implies #[trigger] front[i] == members[i] by {}
        if forall|i: int|
            0 <= i < members.len() ==> (#[trigger] members[i]).state@ == "ACTIVE"@
                || members[i].state@ == "STANDBY"@ {
            assert(members[members.len() - 1] == members.last());
            assert forall|i: int| 0 <= i < front.len() implies (#[trigger] front[i]).state@
                == "ACTIVE"@ || front[i].state@ == "STANDBY"@ by {
                assert(front[i] == members[i]);
            }
        }
        if count_where(members, |m: SdwanMember| !member_ok(m)) == 0 {
            assert forall|i: int| 0 <= i < members.len() implies (#[trigger] members[i]).state@
                == "ACTIVE"@ || members[i].state@ == "STANDBY"@ by {
                if i < front.len() {
                    assert(front[i] == members[i]);
                } else {
                    assert(members[i] == members.last());
                }
            }
        }
    }
}

/// A tunnel whose phase 1 is reported exactly as `up`.
pub open spec fn tunnel_up(t: IpsecTunnel) -> bool {
    match t.phase1_state {
        Some(s) => s@ == "up"@,
        None => false,
    }
}

/// Whether a tunnel's phase 1 is `up`.
pub fn tunnel_is_up(t: &IpsecTunnel) -> (b: bool)
    ensures
        b == tunnel_up(*t),
{
    match &t.phase1_state {
        Some(s) => str_eq(s.as_str(), "up"),
        None => false,
    }
}

/// The VPN panel's count: `{up}/{tunnels} up`.
pub fn tunnels_up_text(tunnels: &Vec<IpsecTunnel>) -> (s: String)
    ensures
        s@ == decimal(count_where(tunnels@, |t: IpsecTunnel| tunnel_up(t))) + "/"@ + decimal(
            tunnels@.len(),
        ) + " up"@,
{
    let ghost p = |t: IpsecTunnel| tunnel_up(t);
    let mut c: usize = 0;
    let mut i: usize = 0;
    while i < tunnels.len()
        invariant
            i <= tunnels@.len(),
            p == (|t: IpsecTunnel| tunnel_up(t)),
            c == count_where(tunnels@.take(i as int), p),
        decreases tunnels@.len() - i,
    {
        proof {
            lemma_count_where_push(tunnels@, p, i as int);
            lemma_count_where_len(tunnels@.take(i as int), p);
        }
        if tunnel_is_up(&tunnels[i]) {
            c = c + 1;
        }
        i = i + 1;
    }
    assert(tunnels@.take(tunnels@.len() as int) =~= tunnels@);
    let mut out: Vec<char> = Vec::new();
    push_decimal(&mut out, c as u128);
    push_str(&mut out, "/");
    push_decimal(&mut out, tunnels.len() as u128);
    push_str(&mut out, " up");
    string_from_chars(&out)
}

} // verus!
