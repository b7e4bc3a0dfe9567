//! The phase controller: a four-phase state machine (Logical, Illogical,
//! Synthesis, Perfect) driven once per tick by the three metric flows.
//!
//! Overflow policy, per field: `hash` and `cycle_count` wrap; `entropy`,
//! `pressure` and `memory_used` saturate; `perfection_score` needs no policy
//! because its formula over any `i8` success score stays within
//! [-1380, 1420], well inside `i16` (proved by the contracts below).

use vstd::prelude::*;
use vstd::wrapping::u64_specs;

use crate::f3::cpu::CpuFlow;
use crate::f3::mem::MemFlow;
use crate::f3::mem::spec_success_score;
use crate::f3::mem::spec_synthesize;
use crate::f3::ram::RamFlow;

verus! {

/// The four phases of the behavioral cycle. The only edges are
/// Logical -> Illogical -> Synthesis -> Perfect -> Logical.
#[derive(Debug, Clone, Copy, PartialEq, Eq, Structural)]
pub enum SystemPhase {
    /// Ordered, predictable structure.
    Logical,
    /// Deliberate disorder and exploration.
    Illogical,
    /// The funnel concentrates and reorganizes.
    Synthesis,
    /// The new, optimized order.
    Perfect,
}

/// The controller's own state record.
#[derive(Debug, Clone, Copy, PartialEq, Eq, Structural)]
pub struct F3State {
    pub hash: u64,
    pub priority_bias: i8,
    pub memory_bias: i8,
    pub cycle_count: u64,
    pub phase: SystemPhase,
    /// 0-255 measure of accumulated disorder.
    pub entropy: u8,
    /// Signed quality of the most recent synthesis; retained across cycles.
    pub perfection_score: i16,
}

/// The fixed non-zero seed the controller state is initialized with.
pub const SEED_HASH: u64 = 0xDEADBEEFCAFEBABE;

/// One step of the polynomial rolling hash: multiply by 31 and add, both
/// wrapping in 64 bits.
pub open spec fn spec_hash_step(h: u64, x: u64) -> u64 {
    u64_specs::wrapping_add(u64_specs::wrapping_mul(h, 31), x)
}

/// The state hash recomputed during Synthesis from the three task identifiers
/// and the cycle counter.
pub open spec fn spec_hash(cpu_id: u64, ram_id: u64, mem_id: u64, cycle: u64) -> u64 {
    spec_hash_step(spec_hash_step(spec_hash_step(cpu_id, ram_id), mem_id), cycle)
}

/// The perfection score of a synthesized result: ten times the success score,
/// +50 for each efficient sample, -100 on an anomaly.
pub open spec fn spec_perfection_score(synthesized: MemFlow, cpu: CpuFlow, ram: RamFlow) -> i16 {
    ((synthesized.success_score as int) * 10 + (if cpu.cycles_used < 1000 {
        50int
    } else {
        0int
    }) + (if ram.pressure < 50 {
        50int
    } else {
        0int
    }) + (if cpu.last_latency < 100 {
        50int
    } else {
        0int
    }) + (if synthesized.anomaly {
        -100int
    } else {
        0int
    })) as i16
}

/// The execution sample after one perturbation of the Illogical phase: on
/// every third cycle the identifier is bumped (wrapping), the cycles doubled
/// (wrapping) and the latency reduced by 10 (saturating at 0).
pub open spec fn spec_perturbed_cpu(cycle_count: u64, cpu: CpuFlow) -> CpuFlow {
    if cycle_count % 3 == 0 {
        CpuFlow {
            task_id: u64_specs::wrapping_add(cpu.task_id, 1),
            cycles_used: u64_specs::wrapping_mul(cpu.cycles_used, 2),
            last_latency: cpu.last_latency.saturating_sub(10),
            active: cpu.active,
        }
    } else {
        cpu
    }
}

/// The memory sample after one perturbation of the Illogical phase: on every
/// fifth cycle the identifier is bumped (wrapping), the usage raised by 1000
/// (saturating) and the pressure inverted.
pub open spec fn spec_perturbed_ram(cycle_count: u64, ram: RamFlow) -> RamFlow {
    if cycle_count % 5 == 0 {
        RamFlow {
            task_id: u64_specs::wrapping_add(ram.task_id, 1),
            memory_used: ram.memory_used.saturating_add(1000),
            pressure: (255 - ram.pressure) as u8,
            active: ram.active,
        }
    } else {
        ram
    }
}

/// The whole feedback context: controller state plus the three flows it owns.
#[derive(Debug, Clone, Copy, PartialEq, Eq, Structural)]
pub struct F3Core {
    pub state: F3State,
    pub cpu: CpuFlow,
    pub ram: RamFlow,
    pub mem: MemFlow,
}

/// The documented successor of each phase; no other edges exist.
pub open spec fn spec_next_phase(p: SystemPhase) -> SystemPhase {
    match p {
        SystemPhase::Logical => SystemPhase::Illogical,
        SystemPhase::Illogical => SystemPhase::Synthesis,
        SystemPhase::Synthesis => SystemPhase::Perfect,
        SystemPhase::Perfect => SystemPhase::Logical,
    }
}

impl F3Core {
    /// The controller state after its single initialization point: seeded
    /// hash, cycle zero, Logical phase, no entropy, neutral perfection. The
    /// two bias values are not part of the reset.
    pub open spec fn spec_init_state(s: F3State) -> F3State {
        F3State {
            hash: SEED_HASH,
            cycle_count: 0,
            phase: SystemPhase::Logical,
            entropy: 0,
            perfection_score: 0,
            ..s
        }
    }

    /// The Logical phase: pure structure. Leaves for Illogical exactly when
    /// the cycle counter is a positive multiple of 50, injecting entropy 100.
    pub open spec fn spec_logical_step(self) -> F3Core {
        if self.state.cycle_count > 0 && self.state.cycle_count % 50 == 0 {
            F3Core {
                state: F3State { phase: SystemPhase::Illogical, entropy: 100, ..self.state },
                ..self
            }
        } else {
            self
        }
    }

    /// The Illogical phase: perturbs both trackers, raises entropy by 5
    /// (saturating), and leaves for Synthesis once entropy exceeds 200 or the
    /// cycle counter is a multiple of 100.
    pub open spec fn spec_illogical_step(self) -> F3Core {
        let cpu2 = spec_perturbed_cpu(self.state.cycle_count, self.cpu);
        let ram2 = spec_perturbed_ram(self.state.cycle_count, self.ram);
        let e2 = self.state.entropy.saturating_add(5);
        let phase2 = if e2 > 200 || self.state.cycle_count % 100 == 0 {
            SystemPhase::Synthesis
        } else {
            SystemPhase::Illogical
        };
        F3Core {
            state: F3State { phase: phase2, entropy: e2, ..self.state },
            cpu: cpu2,
            ram: ram2,
            mem: self.mem,
        }
    }

    /// The Synthesis phase: scores the current samples, recomputes the hash
    /// from the three task identifiers and the cycle counter, lowers entropy
    /// by 20 (saturating), recomputes the perfection score, and leaves for
    /// Perfect once entropy drops below 50.
    pub open spec fn spec_synthesis_step(self) -> F3Core {
        let mem2 = spec_synthesize(
            self.mem,
            self.cpu.cycles_used,
            self.ram.pressure,
            self.cpu.last_latency,
        );
        let hash2 = spec_hash(
            self.cpu.task_id,
            self.ram.task_id,
            self.mem.task_id,
            self.state.cycle_count,
        );
        let e2 = self.state.entropy.saturating_sub(20);
        let p2 = spec_perfection_score(mem2, self.cpu, self.ram);
        let phase2 = if e2 < 50 {
            SystemPhase::Perfect
        } else {
            SystemPhase::Synthesis
        };
        F3Core {
            state: F3State {
                hash: hash2,
                entropy: e2,
                perfection_score: p2,
                phase: phase2,
                ..self.state
            },
            mem: mem2,
            ..self
        }
    }

    /// The Perfect phase: rescores the current samples, publishes the two
    /// bias values, and returns to Logical (entropy reset to 0, perfection
    /// score deliberately retained) once the cycle counter is a multiple of
    /// 200.
    pub open spec fn spec_perfect_step(self) -> F3Core {
        let mem2 = spec_synthesize(
            self.mem,
            self.cpu.cycles_used,
            self.ram.pressure,
            self.cpu.last_latency,
        );
        let pb = mem2.success_score;
        let mb: i8 = if self.ram.pressure > 128 {
            (256 - self.ram.pressure as int) as i8
        } else {
            0
        };
        let phase2 = if self.state.cycle_count % 200 == 0 {
            SystemPhase::Logical
        } else {
            SystemPhase::Perfect
        };
        let e2: u8 = if self.state.cycle_count % 200 == 0 {
            0
        } else {
            self.state.entropy
        };
        F3Core {
            state: F3State {
                priority_bias: pb,
                memory_bias: mb,
                phase: phase2,
                entropy: e2,
                ..self.state
            },
            mem: mem2,
            ..self
        }
    }

    /// One full tick: the step of the current phase, then the cycle counter
    /// advanced by one (wrapping).
    pub open spec fn spec_tick(self) -> F3Core {
        let stepped = match self.state.phase {
            SystemPhase::Logical => self.spec_logical_step(),
            SystemPhase::Illogical => self.spec_illogical_step(),
            SystemPhase::Synthesis => self.spec_synthesis_step(),
            SystemPhase::Perfect => self.spec_perfect_step(),
        };
        F3Core {
            state: F3State {
                cycle_count: u64_specs::wrapping_add(stepped.state.cycle_count, 1),
                ..stepped.state
            },
            ..stepped
        }
    }

    /// The context after `n` ticks.
    pub open spec fn spec_run(self, n: nat) -> F3Core
        decreases n,
    {
        if n == 0 {
            self
        } else {
            self.spec_run((n - 1) as nat).spec_tick()
        }
    }

    /// A fresh context: all three trackers inactive and zeroed, the controller
    /// state zeroed in the Logical phase.
    pub fn new() -> (r: F3Core)
        ensures
            r == (F3Core {
                state: F3State {
                    hash: 0,
                    priority_bias: 0,
                    memory_bias: 0,
                    cycle_count: 0,
                    phase: SystemPhase::Logical,
                    entropy: 0,
                    perfection_score: 0,
                },
                cpu: CpuFlow { task_id: 0, cycles_used: 0, last_latency: 0, active: false },
                ram: RamFlow { task_id: 0, memory_used: 0, pressure: 0, active: false },
                mem: MemFlow { task_id: 0, success_score: 0, anomaly: false, active: false },
            }),
    {
        F3Core {
            state: F3State {
                hash: 0,
                priority_bias: 0,
                memory_bias: 0,
                cycle_count: 0,
                phase: SystemPhase::Logical,
                entropy: 0,
                perfection_score: 0,
            },
            cpu: CpuFlow::new(),
            ram: RamFlow::new(),
            mem: MemFlow::new(),
        }
    }

    /// Marks all three flows active; idempotent, the samples are untouched.
    pub fn init_all(&mut self)
        ensures
            *final(self) == (F3Core {
                cpu: CpuFlow { active: true, ..old(self).cpu },
                ram: RamFlow { active: true, ..old(self).ram },
                mem: MemFlow { active: true, ..old(self).mem },
                ..*old(self)
            }),
    {
        self.cpu.init();
        self.ram.init();
        self.mem.init();
    }

    /// Resets the controller state to its fixed initial values; the trackers
    /// and the two bias values are untouched.
    pub fn controller_init(&mut self)
        ensures
            *final(self) == (F3Core {
                state: F3Core::spec_init_state(old(self).state),
                ..*old(self)
            }),
    {
        self.state.hash = SEED_HASH;
        self.state.cycle_count = 0;
        self.state.phase = SystemPhase::Logical;
        self.state.entropy = 0;
        self.state.perfection_score = 0;
    }

    /// Brings the whole subsystem online: all flows active, controller state
    /// at its fixed initial values.
    pub fn init(&mut self)
        ensures
            *final(self) == (F3Core {
                state: F3Core::spec_init_state(old(self).state),
                cpu: CpuFlow { active: true, ..old(self).cpu },
                ram: RamFlow { active: true, ..old(self).ram },
                mem: MemFlow { active: true, ..old(self).mem },
            }),
    {
        self.init_all();
        self.controller_init();
    }

    /// Advances the state machine by exactly one step.
    pub fn tick(&mut self)
        ensures
            *final(self) == old(self).spec_tick(),
    {
        self.process_funnel();
    }

    /// One pass of the funnel: collect the current samples, run the logic of
    /// the current phase, then advance the cycle counter (wrapping).
    pub fn process_funnel(&mut self)
        ensures
            *final(self) == old(self).spec_tick(),
    {
        let cpu_flow = self.cpu.get_flow();
        let ram_flow = self.ram.get_flow();
        let mem_flow = self.mem.get_flow();

        match self.state.phase {
            SystemPhase::Logical => {
                // Ordered structure; once it is too ordered, explore.
                if self.state.cycle_count > 0 && self.state.cycle_count % 50 == 0 {
                    self.state.phase = SystemPhase::Illogical;
                    self.state.entropy = 100;
                }
            },
            SystemPhase::Illogical => {
                self.introduce_illogical_behavior(&cpu_flow, &ram_flow, &mem_flow);
                if self.state.entropy > 200 || self.state.cycle_count % 100 == 0 {
                    self.state.phase = SystemPhase::Synthesis;
                }
            },
            SystemPhase::Synthesis => {
                let synthesized = self.mem.synthesize(
                    cpu_flow.cycles_used,
                    ram_flow.pressure,
                    cpu_flow.last_latency,
                );
                self.state.hash = calculate_hash(
                    cpu_flow.task_id,
                    ram_flow.task_id,
                    mem_flow.task_id,
                    self.state.cycle_count,
                );
                if self.state.entropy > 0 {
                    self.state.entropy = self.state.entropy.saturating_sub(20);
                }
                self.state.perfection_score = calculate_perfection_score(
                    &synthesized,
                    &cpu_flow,
                    &ram_flow,
                );
                if self.state.entropy < 50 {
                    self.state.phase = SystemPhase::Perfect;
                }
            },
            SystemPhase::Perfect => {
                let synthesized = self.mem.synthesize(
                    cpu_flow.cycles_used,
                    ram_flow.pressure,
                    cpu_flow.last_latency,
                );
                self.state.priority_bias = synthesized.success_score;
                self.state.memory_bias = if ram_flow.pressure > 128 {
                    let p: i16 = ram_flow.pressure as i16;
                    (256 - p) as i8
                } else {
                    0
                };
                apply_feedback(self.state.priority_bias, self.state.memory_bias);
                if self.state.cycle_count % 200 == 0 {
                    self.state.phase = SystemPhase::Logical;
                    self.state.entropy = 0;
                    // The perfection score is deliberately retained as memory
                    // of the completed cycle.
                }
            },
        }

        self.state.cycle_count = self.state.cycle_count.wrapping_add(1);
    }

    /// The perturbation of the Illogical phase: deliberately corrupts both
    /// trackers from the given snapshots and raises entropy by 5 (saturating).
    fn introduce_illogical_behavior(
        &mut self,
        cpu_flow: &CpuFlow,
        ram_flow: &RamFlow,
        _mem_flow: &MemFlow,
    )
        requires
            *cpu_flow == old(self).cpu,
            *ram_flow == old(self).ram,
        ensures
            *final(self) == (F3Core {
                state: F3State {
                    entropy: old(self).state.entropy.saturating_add(5),
                    ..old(self).state
                },
                cpu: spec_perturbed_cpu(old(self).state.cycle_count, old(self).cpu),
                ram: spec_perturbed_ram(old(self).state.cycle_count, old(self).ram),
                mem: old(self).mem,
            }),
    {
        if self.state.cycle_count % 3 == 0 {
            self.cpu.record_execution(
                cpu_flow.task_id.wrapping_add(1),
                cpu_flow.cycles_used.wrapping_mul(2),
                cpu_flow.last_latency.saturating_sub(10),
            );
        }
        if self.state.cycle_count % 5 == 0 {
            self.ram.record_usage(
                ram_flow.task_id.wrapping_add(1),
                ram_flow.memory_used.saturating_add(1000),
                255u8.saturating_sub(ram_flow.pressure),
            );
        }
        self.state.entropy = self.state.entropy.saturating_add(5);
    }

    /// Returns a copy of the full controller state; never fails.
    pub fn get_state(&self) -> (r: F3State)
        ensures
            r == self.state,
    {
        self.state
    }

    /// Returns the current phase; never fails.
    pub fn get_phase(&self) -> (r: SystemPhase)
        ensures
            r == self.state.phase,
    {
        self.state.phase
    }

    /// Returns the current entropy level; never fails.
    pub fn get_entropy(&self) -> (r: u8)
        ensures
            r == self.state.entropy,
    {
        self.state.entropy
    }

    /// Returns the current perfection score; never fails.
    pub fn get_perfection_score(&self) -> (r: i16)
        ensures
            r == self.state.perfection_score,
    {
        self.state.perfection_score
    }
}

/// The perfection of a synthesized result against the samples it came from.
pub fn calculate_perfection_score(
    synthesized: &MemFlow,
    cpu_flow: &CpuFlow,
    ram_flow: &RamFlow,
) -> (r: i16)
    ensures
        r == spec_perfection_score(*synthesized, *cpu_flow, *ram_flow),
{
    let mut score: i16 = (synthesized.success_score as i16) * 10;
    if cpu_flow.cycles_used < 1000 {
        score += 50;
    }
    if ram_flow.pressure < 50 {
        score += 50;
    }
    if cpu_flow.last_latency < 100 {
        score += 50;
    }
    if synthesized.anomaly {
        score -= 100;
    }
    score
}

/// The polynomial rolling hash identifying a state: multiplier 31, wrapping
/// 64-bit arithmetic throughout.
pub fn calculate_hash(cpu_id: u64, ram_id: u64, mem_id: u64, cycle: u64) -> (r: u64)
    ensures
        r == spec_hash(cpu_id, ram_id, mem_id, cycle),
{
    let mut hash = cpu_id;
    hash = hash.wrapping_mul(31).wrapping_add(ram_id);
    hash = hash.wrapping_mul(31).wrapping_add(mem_id);
    hash = hash.wrapping_mul(31).wrapping_add(cycle);
    hash
}

/// The feedback hook: the next scheduling cycle is meant to read the two
/// biases. No consumer exists in scope, so the hook deliberately does
/// nothing.
pub fn apply_feedback(priority_bias: i8, memory_bias: i8) {
    let _ = priority_bias;
    let _ = memory_bias;
}

/// After a tick the phase is unchanged or has moved to its documented
/// successor: the cycle Logical -> Illogical -> Synthesis -> Perfect ->
/// Logical has no other edges.
pub proof fn lemma_phase_cycle(c: F3Core)
    ensures
        c.spec_tick().state.phase == c.state.phase || c.spec_tick().state.phase == spec_next_phase(
            c.state.phase,
        ),
{
}

/// Each phase transition happens exactly on its documented boundary, and
/// nowhere else: Logical leaves iff the cycle counter is a positive multiple
/// of 50; Illogical leaves iff the raised entropy exceeds 200 or the counter
/// is a multiple of 100; Synthesis leaves iff the lowered entropy is below
/// 50; Perfect leaves iff the counter is a multiple of 200.
pub proof fn lemma_transition_boundaries(c: F3Core)
    ensures
        c.state.phase == SystemPhase::Logical ==> (c.spec_tick().state.phase
            == SystemPhase::Illogical <==> (c.state.cycle_count > 0 && c.state.cycle_count % 50
            == 0)),
        c.state.phase == SystemPhase::Logical && !(c.state.cycle_count > 0 && c.state.cycle_count
            % 50 == 0) ==> c.spec_tick().state.phase == SystemPhase::Logical,
        c.state.phase == SystemPhase::Illogical ==> (c.spec_tick().state.phase
            == SystemPhase::Synthesis <==> (c.state.entropy.saturating_add(5) > 200
            || c.state.cycle_count % 100 == 0)),
        c.state.phase == SystemPhase::Illogical && !(c.state.entropy.saturating_add(5) > 200
            || c.state.cycle_count % 100 == 0) ==> c.spec_tick().state.phase
            == SystemPhase::Illogical,
        c.state.phase == SystemPhase::Synthesis ==> (c.spec_tick().state.phase
            == SystemPhase::Perfect <==> c.state.entropy.saturating_sub(20) < 50),
        c.state.phase == SystemPhase::Synthesis && !(c.state.entropy.saturating_sub(20) < 50)
            ==> c.spec_tick().state.phase == SystemPhase::Synthesis,
        c.state.phase == SystemPhase::Perfect ==> (c.spec_tick().state.phase
            == SystemPhase::Logical <==> c.state.cycle_count % 200 == 0),
        c.state.phase == SystemPhase::Perfect && !(c.state.cycle_count % 200 == 0)
            ==> c.spec_tick().state.phase == SystemPhase::Perfect,
{
}

/// Entropy stays within [0, 255] after any number of ticks from any starting
/// context: every update saturates, none wraps.
pub proof fn lemma_entropy_bounded(c: F3Core, n: nat)
    ensures
        0 <= c.spec_run(n).state.entropy <= 255,
{
}

/// The cycle counter advances by exactly one on every tick, whatever the
/// phase (wrapping at the 64-bit boundary).
pub proof fn lemma_cycle_count_advances(c: F3Core)
    ensures
        c.spec_tick().state.cycle_count == u64_specs::wrapping_add(c.state.cycle_count, 1),
{
}

/// The perfection score is recomputed only during Synthesis: every other
/// phase carries it through unchanged.
pub proof fn lemma_perfection_persists(c: F3Core)
    requires
        c.state.phase != SystemPhase::Synthesis,
    ensures
        c.spec_tick().state.perfection_score == c.state.perfection_score,
{
}

/// A Synthesis tick over efficient samples (low cycles, low pressure, low
/// latency) flags no anomaly and collects all three efficiency bonuses: the
/// recomputed perfection score is exactly ten times the success score plus
/// 150, which under these bounds is 450.
pub proof fn lemma_synthesis_efficient_bonus(c: F3Core)
    requires
        c.state.phase == SystemPhase::Synthesis,
        c.cpu.cycles_used < 1000,
        c.ram.pressure < 50,
        c.cpu.last_latency < 100,
    ensures
        c.spec_tick().state.perfection_score == spec_success_score(
            c.cpu.cycles_used,
            c.ram.pressure,
            c.cpu.last_latency,
        ) * 10 + 150,
        c.spec_tick().state.perfection_score == 450,
{
}

/// From a Logical start at cycle zero the controller stays Logical for the
/// whole first run of 50 ticks, counting them and touching nothing else.
pub proof fn lemma_initial_run_stays_logical(c: F3Core, n: nat)
    requires
        c.state.phase == SystemPhase::Logical,
        c.state.cycle_count == 0,
        n <= 50,
    ensures
        c.spec_run(n).state.phase == SystemPhase::Logical,
        c.spec_run(n).state.cycle_count == n,
        c.spec_run(n).state.entropy == c.state.entropy,
    decreases n,
{
    if n > 0 {
        lemma_initial_run_stays_logical(c, (n - 1) as nat);
    }
}

/// The 51st tick from a Logical start at cycle zero is the first to leave
/// Logical: it reads cycle 50, the first positive multiple of 50, and enters
/// Illogical with entropy set to 100.
pub proof fn lemma_first_exploration(c: F3Core)
    requires
        c.state.phase == SystemPhase::Logical,
        c.state.cycle_count == 0,
    ensures
        forall|n: nat|
            n <= 50 ==> (#[trigger] c.spec_run(n)).state.phase == SystemPhase::Logical,
        c.spec_run(51).state.phase == SystemPhase::Illogical,
        c.spec_run(51).state.entropy == 100,
        c.spec_run(51).state.cycle_count == 51,
{
    assert forall|n: nat| n <= 50 implies (#[trigger] c.spec_run(n)).state.phase
        == SystemPhase::Logical by {
        lemma_initial_run_stays_logical(c, n);
    }
    lemma_initial_run_stays_logical(c, 50);
    assert(c.spec_run(51) == c.spec_run(50).spec_tick());
}

/// When Perfect hands the cycle back to Logical, entropy is reset to 0 but
/// the perfection score is retained: the explicit cross-cycle memory.
pub proof fn lemma_cycle_reset_keeps_perfection(c: F3Core)
    requires
        c.state.phase == SystemPhase::Perfect,
        c.state.cycle_count % 200 == 0,
    ensures
        c.spec_tick().state.phase == SystemPhase::Logical,
        c.spec_tick().state.entropy == 0,
        c.spec_tick().state.perfection_score == c.state.perfection_score,
{
}

} // verus!

