//! Execution-flow tracker: the most recent sample reported by the simulated
//! "execution" producer.

use vstd::prelude::*;

verus! {

/// Latest execution sample. Mutated only through the tracker operations below;
/// readers always receive a copy.
#[derive(Debug, Clone, Copy, PartialEq, Eq, Structural)]
pub struct CpuFlow {
    pub task_id: u64,
    pub cycles_used: u64,
    pub last_latency: u32,
    pub active: bool,
}

impl CpuFlow {
    /// The sample the tracker holds before any producer has reported.
    pub fn new() -> (r: CpuFlow)
        ensures
            r == (CpuFlow { task_id: 0, cycles_used: 0, last_latency: 0, active: false }),
    {
        CpuFlow { task_id: 0, cycles_used: 0, last_latency: 0, active: false }
    }

    /// Marks the tracker active; the sample values are untouched.
    pub fn init(&mut self)
        ensures
            *final(self) == (CpuFlow { active: true, ..*old(self) }),
    {
        self.active = true;
    }

    /// Overwrites the sample unconditionally; any values are accepted.
    pub fn record_execution(&mut self, task_id: u64, cycles: u64, latency: u32)
        ensures
            *final(self) == (CpuFlow {
                task_id,
                cycles_used: cycles,
                last_latency: latency,
                active: old(self).active,
            }),
    {
        self.task_id = task_id;
        self.cycles_used = cycles;
        self.last_latency = latency;
    }

    /// Returns a copy of the current sample; never fails.
    pub fn get_flow(&self) -> (r: CpuFlow)
        ensures
            r == *self,
    {
        *self
    }

    /// Zeroes `cycles_used` and `last_latency`; `task_id` and `active` are
    /// left untouched.
    pub fn reset(&mut self)
        ensures
            *final(self) == (CpuFlow { cycles_used: 0, last_latency: 0, ..*old(self) }),
    {
        self.cycles_used = 0;
        self.last_latency = 0;
    }
}

} // verus!
