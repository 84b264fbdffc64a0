//! Routing endpoints (monitor/router.json).

use vstd::prelude::*;

verus! {

/// GET /router/ipv4 — IPv4 routing table.
pub const IPV4: &'static str = "/router/ipv4";

/// GET /router/ipv6 — IPv6 routing table.
pub const IPV6: &'static str = "/router/ipv6";

/// GET /router/lookup?destination=... — route lookup.
pub const LOOKUP: &'static str = "/router/lookup";

/// GET /router/bgp/neighbors — BGP neighbors.
pub const BGP_NEIGHBORS: &'static str = "/router/bgp/neighbors";

/// GET /router/sdwan/routes — SD-WAN routing/zone next-hops.
pub const SDWAN_ROUTES: &'static str = "/router/sdwan/routes";

} // verus!
