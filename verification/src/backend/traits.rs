//! Parameters of backend queries.

use vstd::prelude::*;

verus! {

/// Address family for routing lookups.
#[derive(Debug, Clone, Copy, PartialEq, Eq, Structural)]
pub enum AddressFamily {
    Ipv4,
    Ipv6,
}

/// Filter for session queries.
#[derive(Debug, PartialEq, Eq)]
pub struct SessionFilter {
    pub src: Option<String>,
    pub dst: Option<String>,
    pub proto: Option<String>,
    pub policy: Option<u32>,
}

impl SessionFilter {
    /// No filtering.
    pub fn any() -> (f: Self)
        ensures
            f.src is None && f.dst is None && f.proto is None && f.policy is None,
    {
        SessionFilter { src: None, dst: None, proto: None, policy: None }
    }
}

} // verus!
