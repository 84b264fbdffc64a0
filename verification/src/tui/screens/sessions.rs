//! Sessions screen: byte/packet counters and session age.

use vstd::prelude::*;
use crate::numfmt::{binary_units_text, f64_value, f64_value_of, push_binary_units};
use crate::text::{decimal, push_decimal, push_str, string_from_chars};
use crate::models::FirewallSession;
use crate::text::{
    chars_of, decimal_string, digits_u32, eq_ignore_ascii_case, parse_u32_from,
    starts_with_ignore_case, str_eq, to_uppercase, trim, trim_chars, uppercase_text,
};
use crate::tui::screens::{matches_search, search_matches, Tone};

verus! {

/// Counter text: `G`/`M` with one decimal, `K` and plain counts with none.
pub open spec fn bytes_text(n: nat) -> Seq<char> {
    binary_units_text(f64_value(n), false, 0)
}

/// Formats a byte or packet counter.
pub fn fmt_bytes(n: u64) -> (s: String)
    ensures
        s@ == bytes_text(n as nat),
{
    let r = f64_value_of(n);
    let mut out: Vec<char> = Vec::new();
    push_binary_units(&mut out, r, false, 0);
    string_from_chars(&out)
}

/// Session age: `XhYm` from one hour, `XmYs` from one minute, else `Xs`.
pub open spec fn age_text(secs: nat) -> Seq<char> {
    if secs >= 3600 {
        decimal(secs / 3600) + "h"@ + decimal((secs % 3600) / 60) + "m"@
    } else if secs >= 60 {
        decimal(secs / 60) + "m"@ + decimal(secs % 60) + "s"@
    } else {
        decimal(secs) + "s"@
    }
}

/// Formats the age of a session.
pub fn age(secs: u64) -> (s: String)
    ensures
        s@ == age_text(secs as nat),
{
    let mut out: Vec<char> = Vec::new();
    if secs >= 3600 {
        push_decimal(&mut out, (secs / 3600) as u128);
        push_str(&mut out, "h");
        push_decimal(&mut out, ((secs % 3600) / 60) as u128);
        push_str(&mut out, "m");
    } else if secs >= 60 {
        push_decimal(&mut out, (secs / 60) as u128);
        push_str(&mut out, "m");
        push_decimal(&mut out, (secs % 60) as u128);
        push_str(&mut out, "s");
    } else {
        push_decimal(&mut out, secs as u128);
        push_str(&mut out, "s");
    }
    string_from_chars(&out)
}

/// The protocol column: the protocol upper-cased, `TCP` in cyan, `UDP` in
/// magenta, others in gray.
pub fn proto_label(proto: &str) -> (r: (String, Tone))
    ensures
        r.0@ == uppercase_text(proto@),
        r.1 == (if r.0@ == "TCP"@ {
            Tone::Cyan
        } else if r.0@ == "UDP"@ {
            Tone::Magenta
        } else {
            Tone::Gray
        }),
{
    let upper = to_uppercase(proto);
    let tone = if str_eq(upper.as_str(), "TCP") {
        Tone::Cyan
    } else if str_eq(upper.as_str(), "UDP") {
        Tone::Magenta
    } else {
        Tone::Gray
    };
    (upper, tone)
}


/// The policy a search asks for: `policy=<n>` (after trimming, `policy=` in
/// any ASCII case) with `n` a decimal `u32`.
pub open spec fn policy_query(needle: Seq<char>) -> Option<u32> {
    let t = trim(needle);
    if t.len() >= 7 && eq_ignore_ascii_case(t.take(7), "policy="@) {
        digits_u32(t.skip(7))
    } else {
        None
    }
}

/// A session is listed when the search is `policy=<n>` and the session's
/// policy is `n`; for any other search, when it matches the session's
/// source, destination, protocol, interface or policy number (a missing one
/// counting as empty).
pub fn session_matches(needle: &str, s: &FirewallSession) -> (b: bool)
    ensures
        match policy_query(needle@) {
            Some(n) => b == (s.policy == Some(n)),
            None => b == search_matches(
                needle@,
                seq![
                    s.src@,
                    s.dst@,
                    s.proto@,
                    match s.interface {
                        Some(i) => i@,
                        None => Seq::empty(),
                    },
                    match s.policy {
                        Some(p) => decimal(p as nat),
                        None => Seq::empty(),
                    },
                ],
            ),
        },
{
    let t = trim_chars(&chars_of(needle));
    proof {
        reveal_strlit("policy=");
    }
    if starts_with_ignore_case(&t, "policy=") {
        if let Some(n) = parse_u32_from(&t, 7) {
            return match s.policy {
                Some(p) => p == n,
                None => false,
            };
        }
    }
    let intf = match &s.interface {
        Some(i) => i.clone(),
        None => String::new(),
    };
    let pol = match s.policy {
        Some(p) => decimal_string(p as u64),
        None => String::new(),
    };
    let hay = [s.src.as_str(), s.dst.as_str(), s.proto.as_str(), intf.as_str(), pol.as_str()];
    let r = matches_search(needle, &hay);
    assert(hay@.map_values(|h: &str| h@) =~= seq![s.src@, s.dst@, s.proto@, intf@, pol@]);
    r
}

} // verus!
