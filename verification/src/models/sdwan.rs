//! SD-WAN normalized data.
//!
//! The latency, jitter and packet-loss measurements are floating-point values;
//! they travel beside these records in the terminal layer.

use vstd::prelude::*;

verus! {

/// An SD-WAN member link.
#[derive(Debug, PartialEq, Eq)]
pub struct SdwanMember {
    pub name: String,
    pub interface: String,
    pub zone: Option<String>,
    pub gateway: Option<String>,
    /// ACTIVE / STANDBY / DOWN
    pub state: String,
    /// PASS / FAIL
    pub sla: Option<String>,
    pub tx_rate_bps: Option<u64>,
    pub rx_rate_bps: Option<u64>,
    pub sessions: u64,
}

/// The result of one health check on one member.
#[derive(Debug, PartialEq, Eq)]
pub struct SdwanHealthCheck {
    pub name: String,
    pub member: String,
    /// PASS / FAIL
    pub status: Option<String>,
}

/// SD-WAN members, health checks and the selected member.
#[derive(Debug, PartialEq, Eq)]
pub struct SdwanState {
    pub members: Vec<SdwanMember>,
    pub health_checks: Vec<SdwanHealthCheck>,
    pub active_member: Option<String>,
}

} // verus!
