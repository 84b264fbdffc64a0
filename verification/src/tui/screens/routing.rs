//! Routing / BGP screen: how routes and neighbors are tagged, and the BGP
//! summary of the status line.

use vstd::prelude::*;
use crate::models::{BgpNeighbor, BgpState};
use crate::text::{decimal, push_decimal, push_str, str_eq, string_from_chars};
use crate::tui::screens::{count_where, lemma_count_where_len, lemma_count_where_push, Tone};

verus! {

/// The family column of a route: `v6` in magenta for `ipv6`, else `v4` in
/// cyan.
pub fn family_tag(family: &str) -> (r: (&'static str, Tone))
    ensures
        family@ == "ipv6"@ ==> r.0@ == "v6"@ && r.1 == Tone::Magenta,
        family@ != "ipv6"@ ==> r.0@ == "v4"@ && r.1 == Tone::Cyan,
{
    if str_eq(family, "ipv6") {
        ("v6", Tone::Magenta)
    } else {
        ("v4", Tone::Cyan)
    }
}

/// The tone of a route's protocol: connected green, static yellow, SD-WAN
/// cyan, anything else plain.
pub fn protocol_tone(protocol: &str) -> (t: Tone)
    ensures
        t == (if protocol@ == "connected"@ {
            Tone::Green
        } else if protocol@ == "static"@ {
            Tone::Yellow
        } else if protocol@ == "sd-wan"@ {
            Tone::Cyan
        } else {
            Tone::Plain
        }),
{
    if str_eq(protocol, "connected") {
        Tone::Green
    } else if str_eq(protocol, "static") {
        Tone::Yellow
    } else if str_eq(protocol, "sd-wan") {
        Tone::Cyan
    } else {
        Tone::Plain
    }
}

/// A neighbor whose session is established.
pub open spec fn is_established(n: BgpNeighbor) -> bool {
    n.state@ == "ESTABLISHED"@
}

/// The tone of a neighbor's state: green when established, else yellow.
pub fn neighbor_tone(n: &BgpNeighbor) -> (t: Tone)
    ensures
        t == (if is_established(*n) {
            Tone::Green
        } else {
            Tone::Yellow
        }),
{
    if str_eq(n.state.as_str(), "ESTABLISHED") {
        Tone::Green
    } else {
        Tone::Yellow
    }
}

/// How many neighbors are established.
pub fn established_count(neighbors: &Vec<BgpNeighbor>) -> (c: usize)
    ensures
        c == count_where(neighbors@, |n: BgpNeighbor| is_established(n)),
{
    let ghost p = |n: BgpNeighbor| is_established(n);
    let mut c: usize = 0;
    let mut i: usize = 0;
    while i < neighbors.len()
        invariant
            i <= neighbors@.len(),
            p == (|n: BgpNeighbor| is_established(n)),
            c == count_where(neighbors@.take(i as int), p),
        decreases neighbors@.len() - i,
    {
        proof {
            lemma_count_where_push(neighbors@, p, i as int);
            lemma_count_where_len(neighbors@.take(i as int), p);
        }
        if str_eq(neighbors[i].state.as_str(), "ESTABLISHED") {
            c = c + 1;
        }
        i = i + 1;
    }
    assert(neighbors@.take(neighbors@.len() as int) =~= neighbors@);
    c
}

/// The BGP part of the status line: `{established}/{neighbors} established`,
/// or `--` before BGP state is known.
pub open spec fn bgp_summary_text(bgp: Option<BgpState>) -> Seq<char> {
    match bgp {
        Some(b) => decimal(count_where(b.neighbors@, |n: BgpNeighbor| is_established(n)))
            + "/"@ + decimal(b.neighbors@.len()) + " established"@,
        None => "--"@,
    }
}

/// Formats the BGP summary.
pub fn bgp_summary(bgp: &Option<BgpState>) -> (s: String)
    ensures
        s@ == bgp_summary_text(*bgp),
{
    let mut out: Vec<char> = Vec::new();
    match bgp {
        Some(b) => {
            let est = established_count(&b.neighbors);
            push_decimal(&mut out, est as u128);
            push_str(&mut out, "/");
            push_decimal(&mut out, b.neighbors.len() as u128);
            push_str(&mut out, " established");
        },
        None => push_str(&mut out, "--"),
    }
    string_from_chars(&out)
}

} // verus!
