//! System-level normalized data.
//!
//! CPU, memory and disk utilisation are floating-point percentages and are
//! kept by the terminal layer beside this record.

use vstd::prelude::*;

verus! {

/// Identity and counters of the FortiGate.
#[derive(Debug, PartialEq, Eq)]
pub struct SystemStatus {
    pub hostname: String,
    pub serial: String,
    pub model: String,
    pub fortios: String,
    pub build: String,
    pub uptime_secs: u64,
    pub sessions: u64,
    pub vdoms: u32,
    pub ha_state: Option<String>,
}

} // verus!
