//! Diagnostics screen.
//!
//! The FortiOS 8 monitor API does not expose ping, traceroute, DNS or
//! packet-capture results; those need the CLI `execute` path. The screen
//! lists what is available over the REST monitor API and what is not, and
//! where the available actions live.

use vstd::prelude::*;
use crate::text::str_eq;
use crate::tui::screens::Tone;

verus! {

/// The rows of the diagnostics table: (diagnostic, availability, notes).
pub open spec fn diagnostics_rows() -> Seq<(Seq<char>, Seq<char>, Seq<char>)> {
    seq![
        ("Ping (IPv4/IPv6)"@, "NOT AVAILABLE"@, "Requires CLI `execute ping` — not exposed via the REST monitor API."@),
        ("Traceroute"@, "NOT AVAILABLE"@, "Requires CLI `execute traceroute` — not exposed via the REST monitor API."@),
        ("DNS lookup"@, "NOT AVAILABLE"@, "No DNS diagnostic endpoint in the monitor API."@),
        ("Packet capture / sniffer"@, "NOT AVAILABLE"@, "Requires CLI `diagnose sniffer packet` — not exposed via the REST monitor API."@),
        ("Route lookup"@, "AVAILABLE"@, "Routing screen → press `l` (uses /monitor/router/lookup)."@),
        ("IPsec tunnel status"@, "AVAILABLE"@, "IPsec screen → `v`, Enter for detail (uses /monitor/vpn/ipsec)."@),
        ("Session lookup"@, "AVAILABLE"@, "Sessions screen → `/` to filter (uses /monitor/firewall/sessions)."@),
    ]
}

/// Rows as characters.
pub open spec fn rows_view(v: Seq<(&'static str, &'static str, &'static str)>) -> Seq<
    (Seq<char>, Seq<char>, Seq<char>),
> {
    v.map_values(|r: (&'static str, &'static str, &'static str)| (r.0@, r.1@, r.2@))
}

/// The diagnostics table.
pub fn diagnostics_table() -> (v: Vec<(&'static str, &'static str, &'static str)>)
    ensures
        rows_view(v@) == diagnostics_rows(),
{
    let v = vec![
        (
            "Ping (IPv4/IPv6)",
            "NOT AVAILABLE",
            "Requires CLI `execute ping` — not exposed via the REST monitor API.",
        ),
        (
            "Traceroute",
            "NOT AVAILABLE",
            "Requires CLI `execute traceroute` — not exposed via the REST monitor API.",
        ),
        ("DNS lookup", "NOT AVAILABLE", "No DNS diagnostic endpoint in the monitor API."),
        (
            "Packet capture / sniffer",
            "NOT AVAILABLE",
            "Requires CLI `diagnose sniffer packet` — not exposed via the REST monitor API.",
        ),
        ("Route lookup", "AVAILABLE", "Routing screen → press `l` (uses /monitor/router/lookup)."),
        (
            "IPsec tunnel status",
            "AVAILABLE",
            "IPsec screen → `v`, Enter for detail (uses /monitor/vpn/ipsec).",
        ),
        (
            "Session lookup",
            "AVAILABLE",
            "Sessions screen → `/` to filter (uses /monitor/firewall/sessions).",
        ),
    ];
    assert(rows_view(v@) =~= diagnostics_rows());
    v
}

/// The tone of an availability: `AVAILABLE` green, anything else yellow.
pub fn availability_tone(a: &str) -> (t: Tone)
    ensures
        t == (if a@ == "AVAILABLE"@ {
            Tone::Green
        } else {
            Tone::Yellow
        }),
{
    if str_eq(a, "AVAILABLE") {
        Tone::Green
    } else {
        Tone::Yellow
    }
}

} // verus!
