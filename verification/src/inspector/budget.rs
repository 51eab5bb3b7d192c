//! Point-in-time readings of the host's resource meters.

use vstd::prelude::*;

verus! {

/// What the host's meters showed at one moment: instructions and bytes
/// consumed so far, and the limits configured for the call.
#[derive(Debug, Clone, Copy, PartialEq, Eq, Structural)]
pub struct BudgetInfo {
    pub cpu_instructions: u64,
    pub cpu_limit: u64,
    pub memory_bytes: u64,
    pub memory_limit: u64,
}

impl BudgetInfo {
    /// A later reading of the same session never shows less consumption
    /// than an earlier one.
    pub open spec fn spec_not_before(self, earlier: BudgetInfo) -> bool {
        &&& earlier.cpu_instructions <= self.cpu_instructions
        &&& earlier.memory_bytes <= self.memory_bytes
    }

    /// Whether `self` can have been read after `earlier` on one session.
    pub fn not_before(&self, earlier: &BudgetInfo) -> (r: bool)
        ensures
            r == self.spec_not_before(*earlier),
    {
        earlier.cpu_instructions <= self.cpu_instructions && earlier.memory_bytes
            <= self.memory_bytes
    }
}

} // verus!
