//! Firewall policy screen: byte counters.

use vstd::prelude::*;
use crate::numfmt::{binary_units_text, f64_value, f64_value_of, push_binary_units};
use crate::text::string_from_chars;

verus! {

/// Byte text: `T`, `G` and `M` with one decimal, `K` and plain bytes with none.
pub open spec fn bytes_text(n: nat) -> Seq<char> {
    binary_units_text(f64_value(n), true, 0)
}

/// Formats a policy's byte counter.
pub fn fmt_bytes(n: u64) -> (s: String)
    ensures
        s@ == bytes_text(n as nat),
{
    let r = f64_value_of(n);
    let mut out: Vec<char> = Vec::new();
    push_binary_units(&mut out, r, true, 0);
    string_from_chars(&out)
}

} // verus!
