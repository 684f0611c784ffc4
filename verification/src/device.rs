//! What the command logic needs to know of a laptop model.
use vstd::prelude::*;

use crate::types::PerfMode;

verus! {

/// Capabilities of a laptop model.
pub struct DeviceInfo {
    /// The performance modes the model offers; `None` when any mode is accepted.
    pub perf_modes: Option<Vec<PerfMode>>,
    /// How many fans the model has (at most four are driven).
    pub fan_zones: u8,
}

impl DeviceInfo {
    /// Whether the model accepts the performance mode `mode`.
    pub open spec fn allows(&self, mode: PerfMode) -> bool {
        match self.perf_modes {
            Some(modes) => modes@.contains(mode),
            None => true,
        }
    }

    /// Whether the model accepts the performance mode `mode`.
    pub fn supports(&self, mode: PerfMode) -> (b: bool)
        ensures
            b == self.allows(mode),
    {
        match self.perf_modes.as_ref() {
            Some(modes) => {
                let mut i: usize = 0;
                while i < modes.len()
                    invariant
                        i <= modes@.len(),
                        self.perf_modes == Some(*modes),
                        forall|j: int| 0 <= j < i ==> modes@[j] != mode,
                    decreases modes@.len() - i,
                {
                    if modes[i] == mode {
                        assert(modes@[i as int] == mode);
                        return true;
                    }
                    i = i + 1;
                }
                false
            },
            None => true,
        }
    }
}

} // verus!
