//! VPN endpoints (monitor/vpn.json).

use vstd::prelude::*;

verus! {

/// GET /vpn/ipsec — active IPsec tunnels.
pub const IPSEC: &'static str = "/vpn/ipsec";

} // verus!
