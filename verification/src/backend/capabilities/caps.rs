//! Capability identifiers shared by backends.

use vstd::prelude::*;

verus! {

pub const SYSTEM: &'static str = "system";

pub const INTERFACES: &'static str = "interfaces";

pub const SDWAN: &'static str = "sdwan";

pub const IPSEC: &'static str = "ipsec";

pub const ROUTING: &'static str = "routing";

pub const BGP: &'static str = "bgp";

pub const OSPF: &'static str = "ospf";

pub const FIREWALL: &'static str = "firewall";

pub const SESSIONS: &'static str = "sessions";

pub const DIAGNOSTICS: &'static str = "diagnostics";

pub const LOGS: &'static str = "logs";

} // verus!
