//! IPsec screen: traffic counters and tunnel uptime.

use vstd::prelude::*;
use crate::numfmt::{binary_units_text, f64_value, f64_value_of, push_binary_units};
use crate::models::IpsecTunnel;
use crate::text::{
    decimal, eq_ignore_ascii_case, eq_ignore_case, push_decimal, push_str, str_eq,
    string_from_chars, to_uppercase, uppercase_text,
};
use crate::tui::screens::{count_where, lemma_count_where_len, lemma_count_where_push, Tone};

verus! {

/// Byte text: `T`, `G` and `M` with one decimal, `K` and plain bytes with none.
pub open spec fn bytes_text(n: nat) -> Seq<char> {
    binary_units_text(f64_value(n), true, 0)
}

/// Formats a tunnel's byte counter.
pub fn fmt_bytes(n: u64) -> (s: String)
    ensures
        s@ == bytes_text(n as nat),
{
    let r = f64_value_of(n);
    let mut out: Vec<char> = Vec::new();
    push_binary_units(&mut out, r, true, 0);
    string_from_chars(&out)
}

/// Tunnel uptime: whole days from one day, `XhYm` from one hour, whole
/// minutes from one minute, seconds below; `--` when unknown.
pub open spec fn uptime_text(secs: Option<u64>) -> Seq<char> {
    match secs {
        Some(s) => {
            let s = s as nat;
            if s >= 86400 {
                decimal(s / 86400) + "d"@
            } else if s >= 3600 {
                decimal(s / 3600) + "h"@ + decimal((s % 3600) / 60) + "m"@
            } else if s >= 60 {
                decimal(s / 60) + "m"@
            } else {
                decimal(s) + "s"@
            }
        },
        None => "--"@,
    }
}

/// Formats a tunnel uptime.
pub fn uptime(secs: Option<u64>) -> (s: String)
    ensures
        s@ == uptime_text(secs),
{
    let mut out: Vec<char> = Vec::new();
    match secs {
        Some(s) => {
            if s >= 86400 {
                push_decimal(&mut out, (s / 86400) as u128);
                push_str(&mut out, "d");
            } else if s >= 3600 {
                push_decimal(&mut out, (s / 3600) as u128);
                push_str(&mut out, "h");
                push_decimal(&mut out, ((s % 3600) / 60) as u128);
                push_str(&mut out, "m");
            } else if s >= 60 {
                push_decimal(&mut out, (s / 60) as u128);
                push_str(&mut out, "m");
            } else {
                push_decimal(&mut out, s as u128);
                push_str(&mut out, "s");
            }
        },
        None => {
            push_str(&mut out, "--");
        },
    }
    string_from_chars(&out)
}

/// The phase-1 column: `UP` in green for `up`/`Up`/`UP`, `DOWN` in red for
/// `down`/`Down`/`DOWN`, any other state upper-cased in yellow, `--` in gray
/// when unknown.
pub open spec fn p1_label(phase1: Option<Seq<char>>) -> (Seq<char>, Tone) {
    match phase1 {
        Some(s) => if s == "up"@ || s == "Up"@ || s == "UP"@ {
            ("UP"@, Tone::Green)
        } else if s == "down"@ || s == "Down"@ || s == "DOWN"@ {
            ("DOWN"@, Tone::Red)
        } else {
            (uppercase_text(s), Tone::Yellow)
        },
        None => ("--"@, Tone::Gray),
    }
}

/// The phase-1 column of a tunnel.
pub fn p1(t: &IpsecTunnel) -> (r: (String, Tone))
    ensures
        (r.0@, r.1) == p1_label(match t.phase1_state {
            Some(s) => Some(s@),
            None => None,
        }),
{
    match &t.phase1_state {
        Some(s) => {
            let s = s.as_str();
            if str_eq(s, "up") || str_eq(s, "Up") || str_eq(s, "UP") {
                ("UP".to_owned(), Tone::Green)
            } else if str_eq(s, "down") || str_eq(s, "Down") || str_eq(s, "DOWN") {
                ("DOWN".to_owned(), Tone::Red)
            } else {
                (to_uppercase(s), Tone::Yellow)
            }
        },
        None => ("--".to_owned(), Tone::Gray),
    }
}

/// A tunnel whose phase 1 is `up` in any ASCII case.
pub open spec fn tunnel_up_any_case(t: IpsecTunnel) -> bool {
    match t.phase1_state {
        Some(s) => eq_ignore_ascii_case(s@, "up"@),
        None => false,
    }
}

/// The status line of the IPsec screen: `{tunnels} tunnels, {up} up`.
pub fn tunnels_status(tunnels: &Vec<IpsecTunnel>) -> (s: String)
    ensures
        s@ == decimal(tunnels@.len()) + " tunnels, "@ + decimal(
            count_where(tunnels@, |t: IpsecTunnel| tunnel_up_any_case(t)),
        ) + " up"@,
{
    let ghost p = |t: IpsecTunnel| tunnel_up_any_case(t);
    let mut c: usize = 0;
    let mut i: usize = 0;
    while i < tunnels.len()
        invariant
            i <= tunnels@.len(),
            p == (|t: IpsecTunnel| tunnel_up_any_case(t)),
            c == count_where(tunnels@.take(i as int), p),
        decreases tunnels@.len() - i,
    {
        proof {
            lemma_count_where_push(tunnels@, p, i as int);
            lemma_count_where_len(tunnels@.take(i as int), p);
        }
        let up = match &tunnels[i].phase1_state {
            Some(s) => eq_ignore_case(s.as_str(), "up"),
            None => false,
        };
        if up {
            c = c + 1;
        }
        i = i + 1;
    }
    assert(tunnels@.take(tunnels@.len() as int) =~= tunnels@);
    let mut out: Vec<char> = Vec::new();
    push_decimal(&mut out, tunnels.len() as u128);
    push_str(&mut out, " tunnels, ");
    push_decimal(&mut out, c as u128);
    push_str(&mut out, " up");
    string_from_chars(&out)
}

} // verus!
