//! Event / state-transition normalized data (in-memory only).

use vstd::prelude::*;

verus! {

/// A detected state transition.
#[derive(Debug, PartialEq, Eq)]
pub struct Event {
    /// Unix seconds.
    pub timestamp: u64,
    pub description: String,
    /// INFO / WARNING / CRITICAL
    pub severity: String,
}

} // verus!
