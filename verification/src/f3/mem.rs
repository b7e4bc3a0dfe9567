//! Synthesis scorer: combines the latest execution and memory samples into a
//! bounded success score and an anomaly flag, overwriting one shared
//! last-result record.

use vstd::prelude::*;

verus! {

/// The shared last-result record of the scorer. `synthesize` overwrites only
/// `success_score` and `anomaly`; `task_id` and `active` keep whatever value
/// they had before (they are deliberately left stale).
#[derive(Debug, Clone, Copy, PartialEq, Eq, Structural)]
pub struct MemFlow {
    pub task_id: u64,
    pub success_score: i8,
    pub anomaly: bool,
    pub active: bool,
}

/// The success score `synthesize` computes: +10 for each of low cycles, low
/// pressure and low latency, and -20 when any input is anomalously high.
pub open spec fn spec_success_score(cpu_cycles: u64, ram_pressure: u8, latency: u32) -> i8 {
    ((if cpu_cycles < 1000 {
        10int
    } else {
        0int
    }) + (if ram_pressure < 50 {
        10int
    } else {
        0int
    }) + (if latency < 100 {
        10int
    } else {
        0int
    }) + (if spec_anomaly(cpu_cycles, ram_pressure, latency) {
        -20int
    } else {
        0int
    })) as i8
}

/// The anomaly condition: any one input far out of its normal band.
pub open spec fn spec_anomaly(cpu_cycles: u64, ram_pressure: u8, latency: u32) -> bool {
    cpu_cycles > 10000 || ram_pressure > 200 || latency > 1000
}

/// The record after one `synthesize` call: score and anomaly recomputed from
/// the inputs alone, the other fields stale.
pub open spec fn spec_synthesize(m: MemFlow, cpu_cycles: u64, ram_pressure: u8, latency: u32) -> MemFlow {
    MemFlow {
        success_score: spec_success_score(cpu_cycles, ram_pressure, latency),
        anomaly: spec_anomaly(cpu_cycles, ram_pressure, latency),
        ..m
    }
}

impl MemFlow {
    /// The record the scorer holds before any synthesis has run.
    pub fn new() -> (r: MemFlow)
        ensures
            r == (MemFlow { task_id: 0, success_score: 0, anomaly: false, active: false }),
    {
        MemFlow { task_id: 0, success_score: 0, anomaly: false, active: false }
    }

    /// Marks the scorer active; the record values are untouched.
    pub fn init(&mut self)
        ensures
            *final(self) == (MemFlow { active: true, ..*old(self) }),
    {
        self.active = true;
    }

    /// Scores the given samples, overwrites the shared record, and returns a
    /// copy of it. Deterministic in the three inputs; no failure mode.
    pub fn synthesize(&mut self, cpu_cycles: u64, ram_pressure: u8, latency: u32) -> (r: MemFlow)
        ensures
            *final(self) == spec_synthesize(*old(self), cpu_cycles, ram_pressure, latency),
            r == *final(self),
    {
        let mut score: i8 = 0;
        if cpu_cycles < 1000 {
            score += 10;
        }
        if ram_pressure < 50 {
            score += 10;
        }
        if latency < 100 {
            score += 10;
        }
        if cpu_cycles > 10000 || ram_pressure > 200 || latency > 1000 {
            score -= 20;
            self.anomaly = true;
        } else {
            self.anomaly = false;
        }
        self.success_score = score;
        *self
    }

    /// Returns a copy of the current record; never fails.
    pub fn get_flow(&self) -> (r: MemFlow)
        ensures
            r == *self,
    {
        *self
    }

    /// Zeroes `success_score` and clears `anomaly`; `task_id` and `active` are
    /// left untouched.
    pub fn reset(&mut self)
        ensures
            *final(self) == (MemFlow { success_score: 0, anomaly: false, ..*old(self) }),
    {
        self.success_score = 0;
        self.anomaly = false;
    }
}

/// The score and the anomaly flag depend on the three numeric inputs alone:
/// replaying the same inputs against any two prior records yields the same
/// pair.
pub proof fn lemma_synthesize_deterministic(
    m1: MemFlow,
    m2: MemFlow,
    cpu_cycles: u64,
    ram_pressure: u8,
    latency: u32,
)
    ensures
        spec_synthesize(m1, cpu_cycles, ram_pressure, latency).success_score == spec_synthesize(
            m2,
            cpu_cycles,
            ram_pressure,
            latency,
        ).success_score,
        spec_synthesize(m1, cpu_cycles, ram_pressure, latency).anomaly == spec_synthesize(
            m2,
            cpu_cycles,
            ram_pressure,
            latency,
        ).anomaly,
{
}

} // verus!
