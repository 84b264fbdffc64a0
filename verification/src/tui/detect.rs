//! In-memory event / state-transition detection.
//!
//! Pure functions that compare a previous snapshot with a new one and emit an
//! [`Event`] for each transition an operator cares about: interface up/down
//! and SD-WAN member state changes. Events are held in memory only.

use vstd::prelude::*;
use crate::models::{Event, InterfaceStatus, LinkState, SdwanMember, SdwanState};
use crate::text::{push_str, string_from_chars};
pub use crate::tui::state::now;

verus! {

/// Events as (description, severity) pairs.
pub open spec fn events_view(v: Seq<Event>) -> Seq<(Seq<char>, Seq<char>)> {
    v.map_values(|e: Event| (e.description@, e.severity@))
}

/// Every event carries the timestamp `t`.
pub open spec fn all_at(v: Seq<Event>, t: u64) -> bool {
    forall|k: int| 0 <= k < v.len() ==> (#[trigger] v[k]).timestamp == t
}

/// The link state of the first interface named `name` in `prev`.
pub open spec fn link_before(prev: Seq<InterfaceStatus>, name: Seq<char>) -> Option<LinkState>
    decreases prev.len(),
{
    if prev.len() == 0 {
        None
    } else {
        match link_before(prev.drop_last(), name) {
            Some(l) => Some(l),
            None => if prev.last().name@ == name {
                Some(prev.last().link_state)
            } else {
                None
            },
        }
    }
}

/// The event for interface `ni` given the earlier snapshot: `went DOWN`
/// (WARNING) when it was up and no longer is, `came UP` (INFO) when it was not
/// up and now is; nothing for an interface not seen before.
pub open spec fn interface_event(prev: Seq<InterfaceStatus>, ni: InterfaceStatus) -> Option<
    (Seq<char>, Seq<char>),
> {
    match link_before(prev, ni.name@) {
        Some(l) => {
            let up = l == LinkState::Up;
            let new_up = ni.link_state == LinkState::Up;
            if up && !new_up {
                Some(("Interface "@ + ni.name@ + " went DOWN"@, "WARNING"@))
            } else if !up && new_up {
                Some(("Interface "@ + ni.name@ + " came UP"@, "INFO"@))
            } else {
                None
            }
        },
        None => None,
    }
}

/// Interface transitions, in the order of the new snapshot.
pub open spec fn interface_transitions(
    prev: Seq<InterfaceStatus>,
    new: Seq<InterfaceStatus>,
) -> Seq<(Seq<char>, Seq<char>)>
    decreases new.len(),
{
    if new.len() == 0 {
        Seq::empty()
    } else {
        let r = interface_transitions(prev, new.drop_last());
        match interface_event(prev, new.last()) {
            Some(e) => r.push(e),
            None => r,
        }
    }
}

fn link_of(prev: &[InterfaceStatus], name: &String) -> (r: Option<LinkState>)
    ensures
        r == link_before(prev@, name@),
{
    let mut i: usize = 0;
    while i < prev.len()
        invariant
            i <= prev@.len(),
            link_before(prev@.take(i as int), name@) is None,
        decreases prev@.len() - i,
    {
        assert(prev@.take(i + 1).drop_last() =~= prev@.take(i as int));
        if prev[i].name == *name {
            proof {
                lemma_link_before_prefix(prev@, i as nat + 1, name@);
            }
            return Some(prev[i].link_state);
        }
        i = i + 1;
    }
    assert(prev@.take(prev@.len() as int) =~= prev@);
    None
}

proof fn lemma_link_before_prefix(s: Seq<InterfaceStatus>, n: nat, name: Seq<char>)
    requires
        n <= s.len(),
        link_before(s.take(n as int), name) is Some,
    ensures
        link_before(s, name) == link_before(s.take(n as int), name),
    decreases s.len(),
{
    if n < s.len() {
        assert(s.drop_last().take(n as int) =~= s.take(n as int));
        lemma_link_before_prefix(s.drop_last(), n, name);
    } else {
        assert(s.take(n as int) =~= s);
    }
}

fn event_text(a: &str, name: &String, b: &str) -> (s: String)
    ensures
        s@ == a@ + name@ + b@,
{
    let mut out: Vec<char> = Vec::new();
    push_str(&mut out, a);
    push_str(&mut out, name.as_str());
    push_str(&mut out, b);
    string_from_chars(&out)
}

/// Interface link-state transitions (up↔down), stamped `now`.
pub fn detect_interfaces_at(prev: &[InterfaceStatus], new: &[InterfaceStatus], now: u64) -> (r: Vec<
    Event,
>)
    ensures
        events_view(r@) == interface_transitions(prev@, new@),
        all_at(r@, now),
{
    let mut out: Vec<Event> = Vec::new();
    let mut i: usize = 0;
    while i < new.len()
        invariant
            i <= new@.len(),
            events_view(out@) == interface_transitions(prev@, new@.take(i as int)),
            all_at(out@, now),
        decreases new@.len() - i,
    {
        let ni = &new[i];
        assert(new@.take(i + 1).drop_last() =~= new@.take(i as int));
        assert(new@.take(i + 1).last() == new@[i as int]);
        let ghost before = out@;
        match link_of(prev, &ni.name) {
            Some(l) => {
                let up = l == LinkState::Up;
                let new_up = ni.link_state == LinkState::Up;
                if up && !new_up {
                    out.push(
                        Event {
                            timestamp: now,
                            description: event_text("Interface ", &ni.name, " went DOWN"),
                            severity: "WARNING".to_owned(),
                        },
                    );
                    assert(events_view(out@) =~= events_view(before).push(
                        ("Interface "@ + ni.name@ + " went DOWN"@, "WARNING"@),
                    ));
                } else if !up && new_up {
                    out.push(
                        Event {
                            timestamp: now,
                            description: event_text("Interface ", &ni.name, " came UP"),
                            severity: "INFO".to_owned(),
                        },
                    );
                    assert(events_view(out@) =~= events_view(before).push(
                        ("Interface "@ + ni.name@ + " came UP"@, "INFO"@),
                    ));
                }
            },
            None => {},
        }
        i = i + 1;
    }
    assert(new@.take(new@.len() as int) =~= new@);
    out
}

/// Interface link-state transitions (up↔down), stamped with the current time.
pub fn detect_interfaces(prev: &[InterfaceStatus], new: &[InterfaceStatus]) -> (r: Vec<Event>)
    ensures
        events_view(r@) == interface_transitions(prev@, new@),
        exists|t: u64| all_at(r@, t),
{
    let t = crate::tui::state::now();
    detect_interfaces_at(prev, new, t)
}

/// The state of the first member named `name` in `prev`.
pub open spec fn state_before(prev: Seq<SdwanMember>, name: Seq<char>) -> Option<Seq<char>>
    decreases prev.len(),
{
    if prev.len() == 0 {
        None
    } else {
        match state_before(prev.drop_last(), name) {
            Some(st) => Some(st),
            None => if prev.last().name@ == name {
                Some(prev.last().state@)
            } else {
                None
            },
        }
    }
}

/// The severity of a member entering `state`: WARNING for DOWN or STANDBY,
/// INFO otherwise.
pub open spec fn member_severity(state: Seq<char>) -> Seq<char> {
    if state == "DOWN"@ || state == "STANDBY"@ {
        "WARNING"@
    } else {
        "INFO"@
    }
}

/// The event for member `n` given the earlier members: `SD-WAN member NAME
/// OLD -> NEW` when its state changed; nothing for a member not seen before.
pub open spec fn member_event(prev: Seq<SdwanMember>, n: SdwanMember) -> Option<
    (Seq<char>, Seq<char>),
> {
    match state_before(prev, n.name@) {
        Some(b) => if b != n.state@ {
            Some(
                (
                    "SD-WAN member "@ + n.name@ + " "@ + b + " -> "@ + n.state@,
                    member_severity(n.state@),
                ),
            )
        } else {
            None
        },
        None => None,
    }
}

/// SD-WAN member state transitions, in the order of the new members.
pub open spec fn member_transitions(prev: Seq<SdwanMember>, new: Seq<SdwanMember>) -> Seq<
    (Seq<char>, Seq<char>),
>
    decreases new.len(),
{
    if new.len() == 0 {
        Seq::empty()
    } else {
        let r = member_transitions(prev, new.drop_last());
        match member_event(prev, new.last()) {
            Some(e) => r.push(e),
            None => r,
        }
    }
}

proof fn lemma_state_before_prefix(s: Seq<SdwanMember>, n: nat, name: Seq<char>)
    requires
        n <= s.len(),
        state_before(s.take(n as int), name) is Some,
    ensures
        state_before(s, name) == state_before(s.take(n as int), name),
    decreases s.len(),
{
    if n < s.len() {
        assert(s.drop_last().take(n as int) =~= s.take(n as int));
        lemma_state_before_prefix(s.drop_last(), n, name);
    } else {
        assert(s.take(n as int) =~= s);
    }
}

fn state_of<'a>(prev: &'a Vec<SdwanMember>, name: &String) -> (r: Option<&'a String>)
    ensures
        match r {
            Some(st) => state_before(prev@, name@) == Some(st@),
            None => state_before(prev@, name@) is None,
        },
{
    let mut i: usize = 0;
    while i < prev.len()
        invariant
            i <= prev@.len(),
            state_before(prev@.take(i as int), name@) is None,
        decreases prev@.len() - i,
    {
        assert(prev@.take(i + 1).drop_last() =~= prev@.take(i as int));
        if prev[i].name == *name {
            proof {
                lemma_state_before_prefix(prev@, i as nat + 1, name@);
            }
            return Some(&prev[i].state);
        }
        i = i + 1;
    }
    assert(prev@.take(prev@.len() as int) =~= prev@);
    None
}

/// SD-WAN member state transitions (ACTIVE / STANDBY / DOWN), stamped `now`.
pub fn detect_sdwan_at(prev: &SdwanState, new: &SdwanState, now: u64) -> (r: Vec<Event>)
    ensures
        events_view(r@) == member_transitions(prev.members@, new.members@),
        all_at(r@, now),
{
    let mut out: Vec<Event> = Vec::new();
    let mut i: usize = 0;
    let down = "DOWN".to_owned();
    let standby = "STANDBY".to_owned();
    while i < new.members.len()
        invariant
            i <= new.members@.len(),
            down@ == "DOWN"@,
            standby@ == "STANDBY"@,
            events_view(out@) == member_transitions(prev.members@, new.members@.take(i as int)),
            all_at(out@, now),
        decreases new.members@.len() - i,
    {
        let n = &new.members[i];
        assert(new.members@.take(i + 1).drop_last() =~= new.members@.take(i as int));
        assert(new.members@.take(i + 1).last() == new.members@[i as int]);
        let ghost before = out@;
        match state_of(&prev.members, &n.name) {
            Some(b) => {
                if !(*b == n.state) {
                    let sev = if n.state == down || n.state == standby {
                        "WARNING".to_owned()
                    } else {
                        "INFO".to_owned()
                    };
                    let mut d: Vec<char> = Vec::new();
                    push_str(&mut d, "SD-WAN member ");
                    push_str(&mut d, n.name.as_str());
                    push_str(&mut d, " ");
                    push_str(&mut d, b.as_str());
                    push_str(&mut d, " -> ");
                    push_str(&mut d, n.state.as_str());
                    let e = Event { timestamp: now, description: string_from_chars(&d), severity: sev };
                    out.push(e);
                    assert(events_view(out@) =~= events_view(before).push(
                        (
                            "SD-WAN member "@ + n.name@ + " "@ + b@ + " -> "@ + n.state@,
                            member_severity(n.state@),
                        ),
                    ));
                }
            },
            None => {},
        }
        i = i + 1;
    }
    assert(new.members@.take(new.members@.len() as int) =~= new.members@);
    out
}

/// SD-WAN member state transitions, stamped with the current time.
pub fn detect_sdwan(prev: &SdwanState, new: &SdwanState) -> (r: Vec<Event>)
    ensures
        events_view(r@) == member_transitions(prev.members@, new.members@),
        exists|t: u64| all_at(r@, t),
{
    let t = crate::tui::state::now();
    detect_sdwan_at(prev, new, t)
}

/// Some member of `prev` named `name` was ACTIVE.
pub open spec fn was_active(prev: Seq<SdwanMember>, name: Seq<char>) -> bool {
    exists|k: int| 0 <= k < prev.len() && prev[k].name@ == name && (#[trigger] prev[k]).state@ == "ACTIVE"@
}

/// Members that became ACTIVE: ACTIVE now, and not ACTIVE under that name
/// before (including members not seen before).
pub open spec fn activations(prev: Seq<SdwanMember>, new: Seq<SdwanMember>) -> Seq<
    (Seq<char>, Seq<char>),
>
    decreases new.len(),
{
    if new.len() == 0 {
        Seq::empty()
    } else {
        let r = activations(prev, new.drop_last());
        let n = new.last();
        if n.state@ == "ACTIVE"@ && !was_active(prev, n.name@) {
            r.push(("SD-WAN member "@ + n.name@ + " became ACTIVE"@, "INFO"@))
        } else {
            r
        }
    }
}

/// Detects SD-WAN members entering the ACTIVE (selected) state, stamped `now`.
pub fn detect_sdwan_active_at(prev: &SdwanState, new: &SdwanState, now: u64) -> (r: Vec<Event>)
    ensures
        events_view(r@) == activations(prev.members@, new.members@),
        all_at(r@, now),
{
    let active = "ACTIVE".to_owned();
    let mut out: Vec<Event> = Vec::new();
    let mut i: usize = 0;
    while i < new.members.len()
        invariant
            i <= new.members@.len(),
            active@ == "ACTIVE"@,
            events_view(out@) == activations(prev.members@, new.members@.take(i as int)),
            all_at(out@, now),
        decreases new.members@.len() - i,
    {
        let n = &new.members[i];
        assert(new.members@.take(i + 1).drop_last() =~= new.members@.take(i as int));
        assert(new.members@.take(i + 1).last() == new.members@[i as int]);
        let ghost before = out@;
        if n.state == active {
            let mut seen = false;
            let mut j: usize = 0;
            while j < prev.members.len()
                invariant
                    j <= prev.members@.len(),
                    active@ == "ACTIVE"@,
                    seen <==> exists|k: int|
                        0 <= k < j && prev.members@[k].name@ == n.name@
                            && (#[trigger] prev.members@[k]).state@ == "ACTIVE"@,
                decreases prev.members@.len() - j,
            {
                if prev.members[j].name == n.name && prev.members[j].state == active {
                    seen = true;
                }
                j = j + 1;
            }
            if !seen {
                out.push(
                    Event {
                        timestamp: now,
                        description: event_text("SD-WAN member ", &n.name, " became ACTIVE"),
                        severity: "INFO".to_owned(),
                    },
                );
                assert(events_view(out@) =~= events_view(before).push(
                    ("SD-WAN member "@ + n.name@ + " became ACTIVE"@, "INFO"@),
                ));
            }
        }
        i = i + 1;
    }
    assert(new.members@.take(new.members@.len() as int) =~= new.members@);
    out
}

/// Detects SD-WAN members entering the ACTIVE state, stamped with the
/// current time.
pub fn detect_sdwan_active(prev: &SdwanState, new: &SdwanState) -> (r: Vec<Event>)
    ensures
        events_view(r@) == activations(prev.members@, new.members@),
        exists|t: u64| all_at(r@, t),
{
    let t = crate::tui::state::now();
    detect_sdwan_active_at(prev, new, t)
}

proof fn lemma_link_before_unique(prev: Seq<InterfaceStatus>, k: int)
    requires
        0 <= k < prev.len(),
        forall|i: int, j: int| 0 <= i < j < prev.len() ==> prev[i].name@ != prev[j].name@,
    ensures
        link_before(prev, prev[k].name@) == Some(prev[k].link_state),
    decreases prev.len(),
{
    if k < prev.len() - 1 {
        lemma_link_before_unique(prev.drop_last(), k);
    } else {
        lemma_link_before_absent(prev.drop_last(), prev[k].name@);
    }
}

proof fn lemma_link_before_absent(prev: Seq<InterfaceStatus>, name: Seq<char>)
    requires
        forall|i: int| 0 <= i < prev.len() ==> (#[trigger] prev[i]).name@ != name,
    ensures
        link_before(prev, name) is None,
    decreases prev.len(),
{
    if prev.len() > 0 {
        lemma_link_before_absent(prev.drop_last(), name);
    }
}

/// Comparing a snapshot of uniquely named interfaces with itself detects no
/// transition: no change, no events.
pub proof fn law_no_interface_events_without_change(snapshot: Seq<InterfaceStatus>)
    requires
        forall|i: int, j: int|
            0 <= i < j < snapshot.len() ==> snapshot[i].name@ != snapshot[j].name@,
    ensures
        interface_transitions(snapshot, snapshot).len() == 0,
{
    assert forall|n: nat| n <= snapshot.len() implies interface_transitions(
        snapshot,
        #[trigger] snapshot.take(n as int),
    ).len() == 0 by {
        lemma_no_interface_events_prefix(snapshot, n);
    }
    assert(snapshot.take(snapshot.len() as int) =~= snapshot);
}

proof fn lemma_no_interface_events_prefix(snapshot: Seq<InterfaceStatus>, n: nat)
    requires
        n <= snapshot.len(),
        forall|i: int, j: int|
            0 <= i < j < snapshot.len() ==> snapshot[i].name@ != snapshot[j].name@,
    ensures
        interface_transitions(snapshot, snapshot.take(n as int)).len() == 0,
    decreases n,
{
    if n > 0 {
        let t = snapshot.take(n as int);
        assert(t.drop_last() =~= snapshot.take(n - 1));
        lemma_no_interface_events_prefix(snapshot, (n - 1) as nat);
        lemma_link_before_unique(snapshot, n - 1);
        assert(t.last() == snapshot[n - 1]);
    }
}

proof fn lemma_state_before_unique(prev: Seq<SdwanMember>, k: int)
    requires
        0 <= k < prev.len(),
        forall|i: int, j: int| 0 <= i < j < prev.len() ==> prev[i].name@ != prev[j].name@,
    ensures
        state_before(prev, prev[k].name@) == Some(prev[k].state@),
    decreases prev.len(),
{
    if k < prev.len() - 1 {
        lemma_state_before_unique(prev.drop_last(), k);
    } else {
        lemma_state_before_absent(prev.drop_last(), prev[k].name@);
    }
}

proof fn lemma_state_before_absent(prev: Seq<SdwanMember>, name: Seq<char>)
    requires
        forall|i: int| 0 <= i < prev.len() ==> (#[trigger] prev[i]).name@ != name,
    ensures
        state_before(prev, name) is None,
    decreases prev.len(),
{
    if prev.len() > 0 {
        lemma_state_before_absent(prev.drop_last(), name);
    }
}

proof fn lemma_no_member_events_prefix(members: Seq<SdwanMember>, n: nat)
    requires
        n <= members.len(),
        forall|i: int, j: int| 0 <= i < j < members.len() ==> members[i].name@ != members[j].name@,
    ensures
        member_transitions(members, members.take(n as int)).len() == 0,
    decreases n,
{
    if n > 0 {
        let t = members.take(n as int);
        assert(t.drop_last() =~= members.take(n - 1));
        lemma_no_member_events_prefix(members, (n - 1) as nat);
        lemma_state_before_unique(members, n - 1);
        assert(t.last() == members[n - 1]);
    }
}

/// Comparing SD-WAN members with unique names against themselves detects no
/// state change.
pub proof fn law_no_member_events_without_change(members: Seq<SdwanMember>)
    requires
        forall|i: int, j: int| 0 <= i < j < members.len() ==> members[i].name@ != members[j].name@,
    ensures
        member_transitions(members, members).len() == 0,
{
    lemma_no_member_events_prefix(members, members.len());
    assert(members.take(members.len() as int) =~= members);
}

/// Every SD-WAN transition that is reported belongs to a member of the new
/// snapshot whose earlier state differs from its new one, reads
/// `SD-WAN member NAME OLD -> NEW`, and is a WARNING when the new state is
/// DOWN or STANDBY and INFO for any other new state.
pub proof fn law_member_transition_severity(prev: Seq<SdwanMember>, new: Seq<SdwanMember>)
    ensures
        forall|k: int|
            #![trigger member_transitions(prev, new)[k]]
            0 <= k < member_transitions(prev, new).len() ==> exists|j: int|
                #![trigger new[j]]
                0 <= j < new.len() && {
                    let m = new[j];
                    let e = member_transitions(prev, new)[k];
                    &&& state_before(prev, m.name@) matches Some(b)
                    &&& b != m.state@
                    &&& e.0 == "SD-WAN member "@ + m.name@ + " "@ + b + " -> "@ + m.state@
                    &&& e.1 == (if m.state@ == "DOWN"@ || m.state@ == "STANDBY"@ {
                        "WARNING"@
                    } else {
                        "INFO"@
                    })
                },
    decreases new.len(),
{
    if new.len() > 0 {
        let front = new.drop_last();
        law_member_transition_severity(prev, front);
        let r = member_transitions(prev, front);
        assert forall|k: int|
            #![trigger member_transitions(prev, new)[k]]
            0 <= k < member_transitions(prev, new).len() implies exists|j: int|
            #![trigger new[j]]
            0 <= j < new.len() && {
                let m = new[j];
                let e = member_transitions(prev, new)[k];
                &&& state_before(prev, m.name@) matches Some(b)
                &&& b != m.state@
                &&& e.0 == "SD-WAN member "@ + m.name@ + " "@ + b + " -> "@ + m.state@
                &&& e.1 == (if m.state@ == "DOWN"@ || m.state@ == "STANDBY"@ {
                    "WARNING"@
                } else {
                    "INFO"@
                })
            } by {
            if k < r.len() {
                assert(member_transitions(prev, new)[k] == r[k]);
                let j = choose|j: int|
                    #![trigger front[j]]
                    0 <= j < front.len() && {
                        let m = front[j];
                        let e = r[k];
                        &&& state_before(prev, m.name@) matches Some(b)
                        &&& b != m.state@
                        &&& e.0 == "SD-WAN member "@ + m.name@ + " "@ + b + " -> "@ + m.state@
                        &&& e.1 == (if m.state@ == "DOWN"@ || m.state@ == "STANDBY"@ {
                            "WARNING"@
                        } else {
                            "INFO"@
                        })
                    };
                assert(front[j] == new[j]);
            } else {
                let j = new.len() - 1;
                assert(new[j] == new.last());
            }
        }
    } else {
        assert(member_transitions(prev, new).len() == 0);
    }
}

/// `e` reports the link change of interface `ni` against the earlier
/// snapshot `prev`: an interface that was up and no longer is gives
/// `Interface NAME went DOWN` as a WARNING, one that was not up and now is
/// gives `Interface NAME came UP` as INFO.
pub open spec fn reports_link_change(
    prev: Seq<InterfaceStatus>,
    ni: InterfaceStatus,
    e: (Seq<char>, Seq<char>),
) -> bool {
    ||| {
        &&& link_before(prev, ni.name@) == Some(LinkState::Up)
        &&& ni.link_state != LinkState::Up
        &&& e.0 == "Interface "@ + ni.name@ + " went DOWN"@
        &&& e.1 == "WARNING"@
    }
    ||| {
        &&& link_before(prev, ni.name@) is Some
        &&& link_before(prev, ni.name@) != Some(LinkState::Up)
        &&& ni.link_state == LinkState::Up
        &&& e.0 == "Interface "@ + ni.name@ + " came UP"@
        &&& e.1 == "INFO"@
    }
}

/// Every interface transition that is reported is the link change (per
/// [`reports_link_change`]) of an interface of the new snapshot that was
/// seen before.
pub proof fn law_interface_transition_kinds(prev: Seq<InterfaceStatus>, new: Seq<InterfaceStatus>)
    ensures
        forall|k: int|
            #![trigger interface_transitions(prev, new)[k]]
            0 <= k < interface_transitions(prev, new).len() ==> exists|j: int|
                0 <= j < new.len() && reports_link_change(
                    prev,
                    #[trigger] new[j],
                    interface_transitions(prev, new)[k],
                ),
    decreases new.len(),
{
    if new.len() > 0 {
        let front = new.drop_last();
        law_interface_transition_kinds(prev, front);
        let r = interface_transitions(prev, front);
        assert forall|k: int|
            #![trigger interface_transitions(prev, new)[k]]
            0 <= k < interface_transitions(prev, new).len() implies exists|j: int|
            0 <= j < new.len() && reports_link_change(
                prev,
                #[trigger] new[j],
                interface_transitions(prev, new)[k],
            ) by {
            if k < r.len() {
                assert(interface_transitions(prev, new)[k] == r[k]);
                let j = choose|j: int|
                    0 <= j < front.len() && reports_link_change(prev, #[trigger] front[j], r[k]);
                assert(front[j] == new[j]);
            } else {
                let j = new.len() - 1;
                assert(new[j] == new.last());
            }
        }
    } else {
        assert(interface_transitions(prev, new).len() == 0);
    }
}

/// Every reported activation belongs to a member of the new snapshot that is
/// ACTIVE while no earlier member of that name was ACTIVE, and reads
/// `SD-WAN member NAME became ACTIVE` as INFO.
pub proof fn law_activation_kinds(prev: Seq<SdwanMember>, new: Seq<SdwanMember>)
    ensures
        forall|k: int|
            #![trigger activations(prev, new)[k]]
            0 <= k < activations(prev, new).len() ==> exists|j: int|
                #![trigger new[j]]
                0 <= j < new.len() && {
                    let m = new[j];
                    &&& m.state@ == "ACTIVE"@
                    &&& forall|i: int|
                        0 <= i < prev.len() && (#[trigger] prev[i]).name@ == m.name@
                            ==> prev[i].state@ != "ACTIVE"@
                    &&& activations(prev, new)[k].0
                        == "SD-WAN member "@ + m.name@ + " became ACTIVE"@
                    &&& activations(prev, new)[k].1 == "INFO"@
                },
    decreases new.len(),
{
    if new.len() > 0 {
        let front = new.drop_last();
        law_activation_kinds(prev, front);
        let r = activations(prev, front);
        assert forall|k: int|
            #![trigger activations(prev, new)[k]]
            0 <= k < activations(prev, new).len() implies exists|j: int|
            #![trigger new[j]]
            0 <= j < new.len() && {
                let m = new[j];
                &&& m.state@ == "ACTIVE"@
                &&& forall|i: int|
                    0 <= i < prev.len() && (#[trigger] prev[i]).name@ == m.name@ ==> prev[i].state@
                        != "ACTIVE"@
                &&& activations(prev, new)[k].0 == "SD-WAN member "@ + m.name@ + " became ACTIVE"@
                &&& activations(prev, new)[k].1 == "INFO"@
            } by {
            if k < r.len() {
                assert(activations(prev, new)[k] == r[k]);
                let j = choose|j: int|
                    #![trigger front[j]]
                    0 <= j < front.len() && {
                        let m = front[j];
                        &&& m.state@ == "ACTIVE"@
                        &&& forall|i: int|
                            0 <= i < prev.len() && (#[trigger] prev[i]).name@ == m.name@
                                ==> prev[i].state@ != "ACTIVE"@
                        &&& r[k].0 == "SD-WAN member "@ + m.name@ + " became ACTIVE"@
                        &&& r[k].1 == "INFO"@
                    };
                assert(front[j] == new[j]);
            } else {
                let j = new.len() - 1;
                assert(new[j] == new.last());
            }
        }
    } else {
        assert(activations(prev, new).len() == 0);
    }
}

proof fn lemma_no_activation_prefix(members: Seq<SdwanMember>, n: nat)
    requires
        n <= members.len(),
    ensures
        activations(members, members.take(n as int)).len() == 0,
    decreases n,
{
    if n > 0 {
        let t = members.take(n as int);
        assert(t.drop_last() =~= members.take(n - 1));
        lemma_no_activation_prefix(members, (n - 1) as nat);
        assert(t.last() == members[n - 1]);
        if members[n - 1].state@ == "ACTIVE"@ {
            assert(was_active(members, members[n - 1].name@));
        }
    }
}

/// A member that is ACTIVE in both snapshots never "becomes" ACTIVE: the same
/// members twice give no activation event.
pub proof fn law_no_activation_without_change(members: Seq<SdwanMember>)
    ensures
        activations(members, members).len() == 0,
{
    lemma_no_activation_prefix(members, members.len());
    assert(members.take(members.len() as int) =~= members);
}

} // verus!
