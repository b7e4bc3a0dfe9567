//! The three metric flows: recording, snapshots, resets, and the scorer.

use f3os::f3::cpu::CpuFlow;
use f3os::f3::mem::MemFlow;
use f3os::f3::ram::RamFlow;

#[test]
fn cpu_record_overwrites_and_snapshot_copies() {
    let mut cpu = CpuFlow::new();
    cpu.init();
    cpu.record_execution(7, 1234, 56);
    let snap = cpu.get_flow();
    assert_eq!(snap.task_id, 7);
    assert_eq!(snap.cycles_used, 1234);
    assert_eq!(snap.last_latency, 56);
    assert!(snap.active);
    // The snapshot is a copy: changing it does not touch the tracker.
    let mut copy = snap;
    copy.cycles_used = 0;
    assert_eq!(cpu.get_flow().cycles_used, 1234);
}

#[test]
fn cpu_reset_zeroes_exactly_two_fields() {
    let mut cpu = CpuFlow::new();
    cpu.init();
    cpu.record_execution(7, 1234, 56);
    cpu.reset();
    assert_eq!(cpu.cycles_used, 0);
    assert_eq!(cpu.last_latency, 0);
    assert_eq!(cpu.task_id, 7);
    assert!(cpu.active);
}

#[test]
fn ram_record_overwrites_and_snapshot_copies() {
    let mut ram = RamFlow::new();
    ram.init();
    ram.record_usage(9, 4096, 77);
    let snap = ram.get_flow();
    assert_eq!(snap.task_id, 9);
    assert_eq!(snap.memory_used, 4096);
    assert_eq!(snap.pressure, 77);
    assert!(snap.active);
}

#[test]
fn ram_reset_zeroes_exactly_two_fields() {
    let mut ram = RamFlow::new();
    ram.init();
    ram.record_usage(9, 4096, 77);
    ram.reset();
    assert_eq!(ram.memory_used, 0);
    assert_eq!(ram.pressure, 0);
    assert_eq!(ram.task_id, 9);
    assert!(ram.active);
}

#[test]
fn synthesize_scores_each_bonus() {
    let mut mem = MemFlow::new();
    let r = mem.synthesize(0, 0, 0);
    assert_eq!(r.success_score, 30);
    assert!(!r.anomaly);

    let r = mem.synthesize(999, 49, 99);
    assert_eq!(r.success_score, 30);
    assert!(!r.anomaly);

    // Each bonus lost exactly at its threshold.
    let r = mem.synthesize(1000, 49, 99);
    assert_eq!(r.success_score, 20);
    let r = mem.synthesize(999, 50, 99);
    assert_eq!(r.success_score, 20);
    let r = mem.synthesize(999, 49, 100);
    assert_eq!(r.success_score, 20);

    let r = mem.synthesize(1000, 50, 100);
    assert_eq!(r.success_score, 0);
    assert!(!r.anomaly);
}

#[test]
fn synthesize_flags_anomalies() {
    let mut mem = MemFlow::new();
    let r = mem.synthesize(10001, 0, 0);
    assert_eq!(r.success_score, 0);
    assert!(r.anomaly);

    let r = mem.synthesize(0, 201, 0);
    assert_eq!(r.success_score, 0);
    assert!(r.anomaly);

    let r = mem.synthesize(0, 0, 1001);
    assert_eq!(r.success_score, 0);
    assert!(r.anomaly);

    // At the thresholds themselves no anomaly is flagged.
    let r = mem.synthesize(10000, 200, 1000);
    assert!(!r.anomaly);
    assert_eq!(r.success_score, 0);
}

#[test]
fn synthesize_is_deterministic_in_its_inputs() {
    let mut a = MemFlow::new();
    a.task_id = 11;
    a.success_score = -5;
    a.anomaly = true;
    let mut b = MemFlow::new();
    b.init();

    let inputs = [(0u64, 0u8, 0u32), (500, 60, 80), (20000, 255, 5000), (999, 49, 99)];
    for (c, p, l) in inputs {
        let ra = a.synthesize(c, p, l);
        let rb = b.synthesize(c, p, l);
        assert_eq!(ra.success_score, rb.success_score);
        assert_eq!(ra.anomaly, rb.anomaly);
    }
}

#[test]
fn synthesize_leaves_task_id_and_active_stale() {
    let mut mem = MemFlow::new();
    mem.task_id = 42;
    mem.active = true;
    let r = mem.synthesize(0, 0, 0);
    assert_eq!(r.task_id, 42);
    assert!(r.active);
    assert_eq!(mem.task_id, 42);
}

#[test]
fn mem_reset_zeroes_exactly_two_fields() {
    let mut mem = MemFlow::new();
    mem.init();
    mem.task_id = 3;
    mem.synthesize(0, 0, 0);
    mem.reset();
    assert_eq!(mem.success_score, 0);
    assert!(!mem.anomaly);
    assert_eq!(mem.task_id, 3);
    assert!(mem.active);
}
