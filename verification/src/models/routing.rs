//! Routing normalized data.

use vstd::prelude::*;

verus! {

/// One route of a routing table.
#[derive(Debug, PartialEq, Eq)]
pub struct Route {
    /// e.g. 10.20.0.0/16
    pub prefix: String,
    /// ipv4 / ipv6
    pub family: String,
    pub protocol: String,
    pub next_hop: Option<String>,
    pub interface: Option<String>,
    pub distance: Option<u32>,
    pub metric: Option<u32>,
    pub active: bool,
}

} // verus!
