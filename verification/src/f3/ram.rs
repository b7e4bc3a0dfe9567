//! Memory-usage-flow tracker: the most recent sample reported by the simulated
//! "memory" producer.

use vstd::prelude::*;

verus! {

/// Latest memory-usage sample. `pressure` is a 0-255 indicator; `record_usage`
/// performs no clamping of its own, the caller hands in a pre-clamped value.
#[derive(Debug, Clone, Copy, PartialEq, Eq, Structural)]
pub struct RamFlow {
    pub task_id: u64,
    pub memory_used: usize,
    pub pressure: u8,
    pub active: bool,
}

impl RamFlow {
    /// The sample the tracker holds before any producer has reported.
    pub fn new() -> (r: RamFlow)
        ensures
            r == (RamFlow { task_id: 0, memory_used: 0, pressure: 0, active: false }),
    {
        RamFlow { task_id: 0, memory_used: 0, pressure: 0, active: false }
    }

    /// Marks the tracker active; the sample values are untouched.
    pub fn init(&mut self)
        ensures
            *final(self) == (RamFlow { active: true, ..*old(self) }),
    {
        self.active = true;
    }

    /// Overwrites the sample unconditionally; any values are accepted.
    pub fn record_usage(&mut self, task_id: u64, memory: usize, pressure: u8)
        ensures
            *final(self) == (RamFlow {
                task_id,
                memory_used: memory,
                pressure,
                active: old(self).active,
            }),
    {
        self.task_id = task_id;
        self.memory_used = memory;
        self.pressure = pressure;
    }

    /// Returns a copy of the current sample; never fails.
    pub fn get_flow(&self) -> (r: RamFlow)
        ensures
            r == *self,
    {
        *self
    }

    /// Zeroes `memory_used` and `pressure`; `task_id` and `active` are left
    /// untouched.
    pub fn reset(&mut self)
        ensures
            *final(self) == (RamFlow { memory_used: 0, pressure: 0, ..*old(self) }),
    {
        self.memory_used = 0;
        self.pressure = 0;
    }
}

} // verus!
