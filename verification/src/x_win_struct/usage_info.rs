//! Resource usage reported for a window's process.

use vstd::prelude::*;

verus! {

/// Memory usage of the process owning a window.
#[derive(Debug, Clone, Copy, PartialEq, Eq, Structural)]
pub struct UsageInfo {
    pub memory: u32,
}

impl UsageInfo {
    /// Builds a usage record from the raw byte count.
    pub fn new(memory: u32) -> (r: UsageInfo)
        ensures
            r == (UsageInfo { memory }),
    {
        UsageInfo { memory }
    }
}

} // verus!
