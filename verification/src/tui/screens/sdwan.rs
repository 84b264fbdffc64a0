//! SD-WAN screen: member state and SLA classification, and which member is
//! shown as active.

use vstd::prelude::*;
use crate::models::{SdwanHealthCheck, SdwanMember};
use crate::text::{push_str, str_eq, string_from_chars};
use crate::tui::screens::{matches_search, search_matches, Tone};

verus! {

/// The tone of an SLA or health-check status: `PASS` green, `FAIL` red,
/// anything else (or none) yellow.
pub open spec fn status_tone(status: Option<Seq<char>>) -> Tone {
    match status {
        Some(s) => if s == "PASS"@ {
            Tone::Green
        } else if s == "FAIL"@ {
            Tone::Red
        } else {
            Tone::Yellow
        },
        None => Tone::Yellow,
    }
}

/// The tone of an SLA or health-check status.
pub fn sla_tone(status: Option<&str>) -> (t: Tone)
    ensures
        t == status_tone(
            match status {
                Some(s) => Some(s@),
                None => None,
            },
        ),
{
    match status {
        Some(s) => if str_eq(s, "PASS") {
            Tone::Green
        } else if str_eq(s, "FAIL") {
            Tone::Red
        } else {
            Tone::Yellow
        },
        None => Tone::Yellow,
    }
}

/// The state column of a member: `ACTIVE` green and bold, `STANDBY` cyan,
/// anything else shown as `DOWN` in red.
pub fn member_state(state: &str) -> (r: (&'static str, Tone))
    ensures
        state@ == "ACTIVE"@ ==> r.0@ == "ACTIVE"@ && r.1 == Tone::GreenBold,
        state@ == "STANDBY"@ ==> r.0@ == "STANDBY"@ && r.1 == Tone::Cyan,
        state@ != "ACTIVE"@ && state@ != "STANDBY"@ ==> r.0@ == "DOWN"@ && r.1 == Tone::Red,
{
    proof {
        reveal_strlit("ACTIVE");
        reveal_strlit("STANDBY");
        assert("ACTIVE"@.len() == 6 && "STANDBY"@.len() == 7);
        assert("ACTIVE"@ != "STANDBY"@);
    }
    if str_eq(state, "ACTIVE") {
        ("ACTIVE", Tone::GreenBold)
    } else if str_eq(state, "STANDBY") {
        ("STANDBY", Tone::Cyan)
    } else {
        ("DOWN", Tone::Red)
    }
}

/// The name of the first member in state `ACTIVE`, if any.
pub open spec fn first_active(members: Seq<SdwanMember>) -> Option<Seq<char>>
    decreases members.len(),
{
    if members.len() == 0 {
        None
    } else if members[0].state@ == "ACTIVE"@ {
        Some(members[0].name@)
    } else {
        first_active(members.drop_first())
    }
}

/// The member shown as active: the one the unit reports, else the first
/// member in state `ACTIVE`.
pub fn active_member(reported: &Option<String>, members: &Vec<SdwanMember>) -> (r: Option<String>)
    ensures
        match reported {
            Some(a) => r matches Some(n) && n@ == a@,
            None => match r {
                Some(n) => first_active(members@) == Some(n@),
                None => first_active(members@) is None,
            },
        },
{
    if let Some(a) = reported {
        return Some(a.clone());
    }
    let mut i: usize = 0;
    assert(members@.skip(0) =~= members@);
    while i < members.len()
        invariant
            reported is None,
            i <= members@.len(),
            first_active(members@) == first_active(members@.skip(i as int)),
        decreases members@.len() - i,
    {
        assert(members@.skip(i as int).drop_first() =~= members@.skip(i + 1));
        if str_eq(members[i].state.as_str(), "ACTIVE") {
            return Some(members[i].name.clone());
        }
        i = i + 1;
    }
    None
}

/// The name column of a member: the active member marked with `*` in green
/// and bold, others in cyan.
pub fn member_name(m: &SdwanMember, active: bool) -> (r: (String, Tone))
    ensures
        active ==> r.0@ == m.name@ + "*"@ && r.1 == Tone::GreenBold,
        !active ==> r.0@ == m.name@ && r.1 == Tone::Cyan,
{
    if active {
        let mut out: Vec<char> = Vec::new();
        push_str(&mut out, m.name.as_str());
        push_str(&mut out, "*");
        (string_from_chars(&out), Tone::GreenBold)
    } else {
        (m.name.clone(), Tone::Cyan)
    }
}


/// An optional text, or the empty text.
pub open spec fn or_empty(o: Option<String>) -> Seq<char> {
    match o {
        Some(s) => s@,
        None => Seq::empty(),
    }
}

fn empty_or(o: &Option<String>) -> (s: String)
    ensures
        s@ == or_empty(*o),
{
    match o {
        Some(x) => x.clone(),
        None => String::new(),
    }
}

/// A member is listed when the search matches its name, interface, zone,
/// gateway or state.
pub fn member_matches(needle: &str, m: &SdwanMember) -> (b: bool)
    ensures
        b == search_matches(
            needle@,
            seq![m.name@, m.interface@, or_empty(m.zone), or_empty(m.gateway), m.state@],
        ),
{
    let zone = empty_or(&m.zone);
    let gateway = empty_or(&m.gateway);
    let hay = [m.name.as_str(), m.interface.as_str(), zone.as_str(), gateway.as_str(), m.state.as_str()];
    let r = matches_search(needle, &hay);
    assert(hay@.map_values(|h: &str| h@) =~= seq![
        m.name@,
        m.interface@,
        or_empty(m.zone),
        or_empty(m.gateway),
        m.state@,
    ]);
    r
}

/// A health check is listed when the search matches its name, member or
/// status.
pub fn check_matches(needle: &str, c: &SdwanHealthCheck) -> (b: bool)
    ensures
        b == search_matches(needle@, seq![c.name@, c.member@, or_empty(c.status)]),
{
    let status = empty_or(&c.status);
    let hay = [c.name.as_str(), c.member.as_str(), status.as_str()];
    let r = matches_search(needle, &hay);
    assert(hay@.map_values(|h: &str| h@) =~= seq![c.name@, c.member@, or_empty(c.status)]);
    r
}

} // verus!
