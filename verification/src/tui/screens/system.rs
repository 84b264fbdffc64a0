//! System overview screen: uptime text.

use vstd::prelude::*;
use crate::text::{decimal, push_decimal, push_str, string_from_chars};

verus! {

/// Uptime as days, hours and minutes: `Xd Yh Zm`.
pub open spec fn uptime_text(secs: nat) -> Seq<char> {
    decimal(secs / 86400) + "d "@ + decimal((secs % 86400) / 3600) + "h "@ + decimal(
        (secs % 3600) / 60,
    ) + "m"@
}

/// Formats an uptime for the system screen.
pub fn fmt_uptime(secs: u64) -> (s: String)
    ensures
        s@ == uptime_text(secs as nat),
{
    let mut out: Vec<char> = Vec::new();
    push_decimal(&mut out, (secs / 86400) as u128);
    push_str(&mut out, "d ");
    push_decimal(&mut out, ((secs % 86400) / 3600) as u128);
    push_str(&mut out, "h ");
    push_decimal(&mut out, ((secs % 3600) / 60) as u128);
    push_str(&mut out, "m");
    string_from_chars(&out)
}

} // verus!
