//! BGP normalized data.

use vstd::prelude::*;

verus! {

/// One BGP peer.
#[derive(Debug, PartialEq, Eq)]
pub struct BgpNeighbor {
    pub address: String,
    pub local_as: Option<u32>,
    pub remote_as: Option<u32>,
    /// ESTABLISHED / IDLE / etc.
    pub state: String,
    pub uptime_secs: Option<u64>,
    pub rx_prefixes: u64,
    pub tx_prefixes: u64,
    /// ipv4 / ipv6
    pub family: String,
}

/// The BGP speaker and its peers.
#[derive(Debug, PartialEq, Eq)]
pub struct BgpState {
    pub router_id: Option<String>,
    pub local_as: Option<u32>,
    pub neighbors: Vec<BgpNeighbor>,
}

impl BgpState {
    /// No router id, no local AS, no neighbors.
    pub fn empty() -> (s: Self)
        ensures
            s.router_id is None,
            s.local_as is None,
            s.neighbors@.len() == 0,
    {
        BgpState { router_id: None, local_as: None, neighbors: Vec::new() }
    }
}

} // verus!
