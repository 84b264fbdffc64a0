//! System endpoints (monitor/system.json).

use vstd::prelude::*;

verus! {

/// GET /system/status — model, hostname, serial, version.
pub const STATUS: &'static str = "/system/status";

/// GET /system/resource/usage — cpu, mem, disk, session counters.
pub const RESOURCE_USAGE: &'static str = "/system/resource/usage";

/// GET /system/interface — keyed map of interfaces with counters.
pub const INTERFACE: &'static str = "/system/interface";

} // verus!
