//! The phase controller: transition boundaries, the full cycle, and the
//! scoring formulas.

use f3os::f3::controller::{calculate_hash, calculate_perfection_score, SystemPhase};
use f3os::f3::cpu::CpuFlow;
use f3os::f3::mem::MemFlow;
use f3os::f3::ram::RamFlow;
use f3os::f3::F3Core;

fn fresh_core() -> F3Core {
    let mut core = F3Core::new();
    core.init();
    core
}

#[test]
fn init_sets_fixed_initial_values() {
    let core = fresh_core();
    let state = core.get_state();
    assert_eq!(state.hash, 0xDEADBEEFCAFEBABE);
    assert_eq!(state.cycle_count, 0);
    assert_eq!(core.get_phase(), SystemPhase::Logical);
    assert_eq!(core.get_entropy(), 0);
    assert_eq!(core.get_perfection_score(), 0);
    assert!(core.cpu.active && core.ram.active && core.mem.active);
}

#[test]
fn logical_holds_for_fifty_ticks() {
    let mut core = fresh_core();
    for _ in 0..50 {
        assert_eq!(core.get_phase(), SystemPhase::Logical);
        core.tick();
    }
    // The tick that reads cycle_count == 50 is the 51st; until then the
    // phase must not move.
    assert_eq!(core.get_phase(), SystemPhase::Logical);
    assert_eq!(core.get_state().cycle_count, 50);
    assert_eq!(core.get_entropy(), 0);
}

#[test]
fn logical_leaves_exactly_at_the_boundary() {
    let mut core = fresh_core();
    for _ in 0..51 {
        core.tick();
    }
    assert_eq!(core.get_phase(), SystemPhase::Illogical);
    assert_eq!(core.get_entropy(), 100);
    assert_eq!(core.get_state().cycle_count, 51);
}

#[test]
fn entropy_climbs_by_five_per_illogical_tick() {
    let mut core = fresh_core();
    for _ in 0..52 {
        core.tick();
    }
    assert_eq!(core.get_phase(), SystemPhase::Illogical);
    assert_eq!(core.get_entropy(), 105);
}

#[test]
fn illogical_leaves_once_entropy_exceeds_200() {
    let mut core = fresh_core();
    // Tick 72 reads cycle 71 with entropy at 200 and raises it to 205.
    for _ in 0..72 {
        core.tick();
    }
    assert_eq!(core.get_phase(), SystemPhase::Synthesis);
    assert_eq!(core.get_entropy(), 205);
}

#[test]
fn synthesis_lowers_entropy_and_scores() {
    let mut core = fresh_core();
    for _ in 0..73 {
        core.tick();
    }
    assert_eq!(core.get_phase(), SystemPhase::Synthesis);
    assert_eq!(core.get_entropy(), 185);
    // All perturbed samples are still efficient (zero cycles, latency, and
    // pressure after an even number of inversions), so the recomputed score
    // collects every bonus.
    assert_eq!(core.get_perfection_score(), 450);
}

#[test]
fn synthesis_reaches_perfect_below_entropy_50() {
    let mut core = fresh_core();
    for _ in 0..80 {
        core.tick();
    }
    assert_eq!(core.get_phase(), SystemPhase::Perfect);
    assert_eq!(core.get_entropy(), 45);
}

#[test]
fn full_cycle_returns_to_logical_with_memory() {
    let mut core = fresh_core();
    for _ in 0..200 {
        core.tick();
    }
    // The tick that reads cycle_count == 200 is the 201st; after 200 ticks
    // the controller still sits in Perfect.
    assert_eq!(core.get_phase(), SystemPhase::Perfect);
    assert_eq!(core.get_entropy(), 45);
    core.tick();
    assert_eq!(core.get_phase(), SystemPhase::Logical);
    assert_eq!(core.get_entropy(), 0);
    // The perfection score of the last synthesis survives the reset.
    assert_eq!(core.get_perfection_score(), 450);
    assert_eq!(core.get_state().cycle_count, 201);
}

#[test]
fn only_documented_edges_appear() {
    let mut core = fresh_core();
    let mut prev = core.get_phase();
    for _ in 0..500 {
        core.tick();
        let next = core.get_phase();
        if next != prev {
            let expected = match prev {
                SystemPhase::Logical => SystemPhase::Illogical,
                SystemPhase::Illogical => SystemPhase::Synthesis,
                SystemPhase::Synthesis => SystemPhase::Perfect,
                SystemPhase::Perfect => SystemPhase::Logical,
            };
            assert_eq!(next, expected);
        }
        prev = next;
    }
}

#[test]
fn entropy_stays_in_byte_range_from_any_phase() {
    for phase in [
        SystemPhase::Logical,
        SystemPhase::Illogical,
        SystemPhase::Synthesis,
        SystemPhase::Perfect,
    ] {
        let mut core = fresh_core();
        core.state.phase = phase;
        core.state.entropy = 250;
        core.cpu.record_execution(1, 20000, 2000);
        core.ram.record_usage(2, 5000, 255);
        for _ in 0..300 {
            core.tick();
            assert!(core.get_entropy() <= 255);
        }
    }
}

#[test]
fn synthesis_with_efficient_samples_scores_450() {
    let mut core = fresh_core();
    core.state.phase = SystemPhase::Synthesis;
    core.state.entropy = 200;
    // Trackers already hold zero cycles, pressure and latency after init.
    core.tick();
    assert_eq!(core.get_perfection_score(), 30 * 10 + 150);
    assert_eq!(core.get_perfection_score(), 450);
    assert_eq!(core.get_entropy(), 180);
    assert_eq!(core.get_phase(), SystemPhase::Synthesis);
}

#[test]
fn synthesis_recomputes_hash_from_task_ids() {
    let mut core = fresh_core();
    core.state.phase = SystemPhase::Synthesis;
    core.state.cycle_count = 4;
    core.cpu.record_execution(1, 0, 0);
    core.ram.record_usage(2, 0, 0);
    core.mem.task_id = 3;
    core.tick();
    assert_eq!(core.get_state().hash, calculate_hash(1, 2, 3, 4));
    assert_eq!(calculate_hash(1, 2, 3, 4), ((1u64 * 31 + 2) * 31 + 3) * 31 + 4);
    assert_eq!(calculate_hash(1, 2, 3, 4), 31810);
}

#[test]
fn perfect_publishes_biases() {
    let mut core = fresh_core();
    core.state.phase = SystemPhase::Perfect;
    core.state.cycle_count = 7;
    core.ram.record_usage(2, 0, 200);
    core.tick();
    // Pressure 200: no pressure bonus, no anomaly; score 10 + 10 = 20.
    assert_eq!(core.get_state().priority_bias, 20);
    // Inverted-pressure bias: 256 - 200.
    assert_eq!(core.get_state().memory_bias, 56);
    assert_eq!(core.get_phase(), SystemPhase::Perfect);
}

#[test]
fn perfect_bias_zero_at_or_below_128() {
    let mut core = fresh_core();
    core.state.phase = SystemPhase::Perfect;
    core.ram.record_usage(2, 0, 128);
    core.state.cycle_count = 7;
    core.tick();
    assert_eq!(core.get_state().memory_bias, 0);
}

#[test]
fn perturbation_corrupts_both_trackers() {
    let mut core = fresh_core();
    core.state.phase = SystemPhase::Illogical;
    core.state.cycle_count = 15;  // divisible by 3 and by 5
    core.state.entropy = 10;
    core.cpu.record_execution(9, 6, 25);
    core.ram.record_usage(4, 100, 30);
    core.tick();
    assert_eq!(core.cpu.task_id, 10);
    assert_eq!(core.cpu.cycles_used, 12);
    assert_eq!(core.cpu.last_latency, 15);
    assert_eq!(core.ram.task_id, 5);
    assert_eq!(core.ram.memory_used, 1100);
    assert_eq!(core.ram.pressure, 225);
    assert_eq!(core.get_entropy(), 15);
}

#[test]
fn perturbation_saturates_latency_at_zero() {
    let mut core = fresh_core();
    core.state.phase = SystemPhase::Illogical;
    core.state.cycle_count = 3;
    core.cpu.record_execution(0, 1, 4);
    core.tick();
    assert_eq!(core.cpu.last_latency, 0);
    assert_eq!(core.cpu.cycles_used, 2);
}

#[test]
fn cycle_count_wraps_at_the_64_bit_boundary() {
    let mut core = fresh_core();
    core.state.cycle_count = u64::MAX;
    core.tick();
    assert_eq!(core.get_state().cycle_count, 0);
}

#[test]
fn perfection_formula_with_anomaly() {
    let synthesized = MemFlow {
        task_id: 0,
        success_score: -20,
        anomaly: true,
        active: true,
    };
    let cpu = CpuFlow {
        task_id: 0,
        cycles_used: 20000,
        last_latency: 2000,
        active: true,
    };
    let ram = RamFlow {
        task_id: 0,
        memory_used: 0,
        pressure: 250,
        active: true,
    };
    assert_eq!(calculate_perfection_score(&synthesized, &cpu, &ram), -300);
}

#[test]
fn perfection_formula_partial_bonuses() {
    let synthesized = MemFlow {
        task_id: 0,
        success_score: 10,
        anomaly: false,
        active: true,
    };
    let cpu = CpuFlow {
        task_id: 0,
        cycles_used: 999,
        last_latency: 100,
        active: true,
    };
    let ram = RamFlow {
        task_id: 0,
        memory_used: 0,
        pressure: 50,
        active: true,
    };
    // Only the cycle bonus applies: 10 * 10 + 50.
    assert_eq!(calculate_perfection_score(&synthesized, &cpu, &ram), 150);
}
