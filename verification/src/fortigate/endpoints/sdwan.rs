//! SD-WAN endpoints (monitor/virtual-wan.json).

use vstd::prelude::*;

verus! {

/// GET /virtual-wan/members — list of SD-WAN members with live stats.
pub const MEMBERS: &'static str = "/virtual-wan/members";

/// GET /virtual-wan/health-check — health checks per member.
pub const HEALTH_CHECK: &'static str = "/virtual-wan/health-check";

/// GET /virtual-wan/sladb — SLA database (large).
pub const SLADB: &'static str = "/virtual-wan/sladb";

} // verus!
