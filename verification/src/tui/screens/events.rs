//! Events screen: time-of-day text for event timestamps.

use vstd::prelude::*;
use crate::numfmt::{push_two_digits, two_digits};
use crate::text::{eq_ignore_ascii_case, eq_ignore_case, push_str, string_from_chars};
use crate::tui::screens::Tone;

verus! {

/// `HH:MM:SS` (UTC time of day) of a Unix timestamp.
pub open spec fn time_text(ts: nat) -> Seq<char> {
    two_digits((ts % 86400) / 3600) + ":"@ + two_digits((ts % 3600) / 60) + ":"@ + two_digits(
        ts % 60,
    )
}

/// Formats an event timestamp as its time of day.
pub fn fmt_time(ts: u64) -> (s: String)
    ensures
        s@ == time_text(ts as nat),
{
    let mut out: Vec<char> = Vec::new();
    push_two_digits(&mut out, (ts % 86400) / 3600);
    push_str(&mut out, ":");
    push_two_digits(&mut out, (ts % 3600) / 60);
    push_str(&mut out, ":");
    push_two_digits(&mut out, ts % 60);
    string_from_chars(&out)
}

/// The tone of an event severity, ignoring ASCII case: `CRITICAL` red and
/// bold, `WARNING` yellow, anything else green.
pub fn severity_tone(severity: &str) -> (t: Tone)
    ensures
        t == (if eq_ignore_ascii_case(severity@, "CRITICAL"@) {
            Tone::RedBold
        } else if eq_ignore_ascii_case(severity@, "WARNING"@) {
            Tone::Yellow
        } else {
            Tone::Green
        }),
{
    if eq_ignore_case(severity, "CRITICAL") {
        Tone::RedBold
    } else if eq_ignore_case(severity, "WARNING") {
        Tone::Yellow
    } else {
        Tone::Green
    }
}

} // verus!
