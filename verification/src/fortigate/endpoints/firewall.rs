//! Firewall endpoints (monitor/firewall.json).

use vstd::prelude::*;

verus! {

/// GET /firewall/policy — firewall policies with hit/byte stats.
pub const POLICY: &'static str = "/firewall/policy";

/// GET /firewall/sessions — active sessions (filterable via query).
pub const SESSIONS: &'static str = "/firewall/sessions";

} // verus!
