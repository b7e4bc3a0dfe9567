//! The query-processing front end: process lifecycles, the slot pool, the
//! per-query driver, and windows.

use f3os::f3::F3Core;
use f3os::gui::ai_driver::AIDriver;
use f3os::gui::query_process::{ProcessState, QueryProcess};
use f3os::gui::query_processor::QueryProcessor;
use f3os::gui::windows::{WindowContent, WindowManager};

fn fresh_core() -> F3Core {
    let mut core = F3Core::new();
    core.init();
    core
}

#[test]
fn query_process_walks_its_lifecycle() {
    let mut core = fresh_core();
    let mut qp = QueryProcess::new(5, String::from("hola"), &core);
    assert_eq!(qp.state(), ProcessState::Created);
    assert_eq!(qp.query_id(), 5);
    assert_eq!(qp.query(), "hola");
    assert!(qp.get_result().is_none());
    assert!(!qp.is_completed());

    qp.process(&mut core);
    assert_eq!(qp.state(), ProcessState::Processing);
    // The estimated execution metrics were recorded in the tracker.
    assert_eq!(core.cpu.task_id, 5);
    assert_eq!(core.cpu.cycles_used, 100);
    assert_eq!(core.cpu.last_latency, 10);

    qp.process(&mut core);
    assert_eq!(qp.state(), ProcessState::Synthesizing);
    let (cpu, _, _) = qp.get_flows();
    assert_eq!(cpu.cycles_used, 100);

    qp.process(&mut core);
    assert_eq!(qp.state(), ProcessState::Completed);
    assert!(qp.is_completed());
    assert_eq!(
        qp.get_result().map(|s| s.as_str()),
        Some("Respuesta sintetizada para: hola")
    );
    // Synthesis of (100 cycles, pressure 0, latency 10): every bonus.
    let (_, _, mem) = qp.get_flows();
    assert_eq!(mem.success_score, 30);
    assert!(!mem.anomaly);
    assert_eq!(core.mem.success_score, 30);

    // Final states stay put.
    qp.process(&mut core);
    assert_eq!(qp.state(), ProcessState::Completed);
}

#[test]
fn pool_hands_out_fresh_identifiers() {
    let core = fresh_core();
    let mut pool = QueryProcessor::new();
    assert_eq!(pool.create_query_process(String::from("uno"), &core), Some(1));
    assert_eq!(pool.create_query_process(String::from("dos"), &core), Some(2));
    assert_eq!(pool.get_active_queries(), vec![1, 2]);
}

#[test]
fn pool_refuses_a_33rd_query() {
    let core = fresh_core();
    let mut pool = QueryProcessor::new();
    for i in 0..32 {
        assert_eq!(
            pool.create_query_process(format!("q{}", i), &core),
            Some(i as u64 + 1)
        );
    }
    assert_eq!(pool.create_query_process(String::from("extra"), &core), None);
    assert_eq!(pool.get_active_queries().len(), 32);
}

#[test]
fn pool_finds_processes_by_identifier() {
    let core = fresh_core();
    let mut pool = QueryProcessor::new();
    pool.create_query_process(String::from("uno"), &core).unwrap();
    pool.create_query_process(String::from("dos"), &core).unwrap();

    let second = pool.get_process(2).expect("second query exists");
    assert_eq!(second.query(), "dos");
    assert!(pool.get_process(99).is_none());
}

#[test]
fn pool_processes_all_and_cleans_up() {
    let mut core = fresh_core();
    let mut pool = QueryProcessor::new();
    pool.create_query_process(String::from("uno"), &core).unwrap();
    pool.create_query_process(String::from("dos"), &core).unwrap();

    // Three steps walk every process to Completed.
    pool.process_all(&mut core);
    pool.process_all(&mut core);
    pool.process_all(&mut core);

    let done = pool.get_process(1).expect("first query exists");
    assert_eq!(done.state(), ProcessState::Completed);

    pool.synthesize_results();
    pool.cleanup_completed();
    assert!(pool.get_active_queries().is_empty());

    // The freed slots are reused for new queries, with fresh identifiers.
    assert_eq!(pool.create_query_process(String::from("tres"), &core), Some(3));
}

#[test]
fn ai_driver_analyzes_and_feeds_the_trackers() {
    let mut core = fresh_core();
    let mut driver = AIDriver::new(7, String::from("Qué es F3"));
    let processed = driver.process_query(&mut core);

    assert_eq!(processed.query_id, 7);
    assert_eq!(processed.original_query, "Qué es F3");
    assert_eq!(processed.analysis.intent, "explicar");
    let words: Vec<&str> = processed.analysis.entities.iter().map(|s| s.as_str()).collect();
    assert_eq!(words, vec!["F3"]);
    // Complexity is the byte length of the query ("é" takes two bytes).
    assert_eq!(processed.analysis.complexity, 10);
    assert_eq!(processed.analysis.processing_time, 50);

    assert_eq!(processed.response.text, "Explicación generada");
    assert_eq!(processed.response.context_size, 1);
    assert_eq!(processed.response.memory_pressure, 50);

    // Both trackers carry the recorded metrics.
    assert_eq!(core.cpu.task_id, 7);
    assert_eq!(core.cpu.cycles_used, 10);
    assert_eq!(core.cpu.last_latency, 50);
    assert_eq!(core.ram.task_id, 7);
    assert_eq!(core.ram.memory_used, 1);
    assert_eq!(core.ram.pressure, 50);

    // Synthesis of (10 cycles, pressure 50, latency 50): the pressure bonus
    // is missed exactly at its threshold.
    assert_eq!(processed.synthesized.success_score, 20);
    assert!(!processed.synthesized.anomaly);
}

#[test]
fn ai_driver_detects_each_intent() {
    let driver = AIDriver::new(1, String::from("x"));
    assert_eq!(driver.detect_intent("¿Qué es el modelo?"), "explicar");
    assert_eq!(driver.detect_intent("ver la pantalla"), "mostrar");
    assert_eq!(driver.detect_intent("abre el visor"), "ejecutar");
    assert_eq!(driver.detect_intent("STATUS del sistema"), "consultar_estado");
    assert_eq!(driver.detect_intent("hola"), "general");
}

#[test]
fn ai_driver_extracts_keywords_in_fixed_order() {
    let driver = AIDriver::new(1, String::from("x"));
    let entities = driver.extract_entities("el embudo del modelo F3");
    let words: Vec<&str> = entities.iter().map(|s| s.as_str()).collect();
    assert_eq!(words, vec!["F3", "modelo", "embudo"]);
}

#[test]
fn windows_are_created_staggered_and_found_by_id() {
    let mut wm = WindowManager::new();
    assert!(wm.get_windows().is_empty());

    let first = wm.create_query_window(String::from("uno"), 10);
    let second = wm.create_query_window(String::from("dos"), 11);
    assert_eq!(first, 1);
    assert_eq!(second, 2);
    assert_eq!(wm.get_windows().len(), 2);

    assert!(wm.get_window(2).is_some());
    assert!(wm.get_window(3).is_none());
}

#[test]
fn window_content_can_be_replaced() {
    let mut wm = WindowManager::new();
    let id = wm.create_query_window(String::from("uno"), 10);
    let window = wm.get_window(id).expect("window exists");
    window.update_content(WindowContent::F3Visualizer {
        phase: String::from("logical"),
        entropy: 12,
        perfection_score: 34,
    });
    window.associate_query_process(99);
}
