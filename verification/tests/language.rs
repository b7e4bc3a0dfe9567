//! The language model and the text utilities it is built on.

use f3os::drivers::ai::language_model::LanguageModel;
use f3os::drivers::ai::{AIQueryProcessor, AIResponseGenerator};
use f3os::text::{join_with, split_whitespace_tokens, str_contains};

#[test]
fn contains_finds_substrings() {
    assert!(str_contains("qué es el embudo", "qué es"));
    assert!(str_contains("abc", "abc"));
    assert!(str_contains("abc", ""));
    assert!(!str_contains("abc", "abcd"));
    assert!(!str_contains("hola mundo", "adios"));
    assert!(str_contains("aaab", "aab"));
}

#[test]
fn split_breaks_on_whitespace_runs() {
    let tokens = split_whitespace_tokens("  hola   mundo\tembudo\n");
    let words: Vec<&str> = tokens.iter().map(|s| s.as_str()).collect();
    assert_eq!(words, vec!["hola", "mundo", "embudo"]);
    assert!(split_whitespace_tokens("").is_empty());
    assert!(split_whitespace_tokens(" \t\n").is_empty());
}

#[test]
fn join_places_the_separator_between_entries() {
    let parts = vec![String::from("a"), String::from("b"), String::from("c")];
    assert_eq!(join_with(&parts, ", "), "a, b, c");
    let one = vec![String::from("solo")];
    assert_eq!(join_with(&one, ", "), "solo");
    let none: Vec<String> = Vec::new();
    assert_eq!(join_with(&none, ", "), "");
}

#[test]
fn model_detects_intents_case_insensitively() {
    let model = LanguageModel::new();
    // An uppercase query only matches after lowercasing.
    assert_eq!(model.detect_intent("¿QUÉ ES EL EMBUDO?"), "explicar");
    assert_eq!(model.detect_intent("muestra el estado"), "consultar");
    assert_eq!(model.detect_intent("quiero ver algo"), "consultar");
    assert_eq!(model.detect_intent("hola"), "general");
}

#[test]
fn model_tokenizes_queries() {
    let model = LanguageModel::new();
    let tokens = model.tokenize("qué es el embudo");
    let words: Vec<&str> = tokens.iter().map(|s| s.as_str()).collect();
    assert_eq!(words, vec!["qué", "es", "el", "embudo"]);
}

#[test]
fn model_extracts_vocabulary_entities_in_order() {
    let model = LanguageModel::new();
    let entities = model.extract_entities("¿Qué es el EMBUDO lógico?");
    let words: Vec<&str> = entities.iter().map(|s| s.as_str()).collect();
    // Vocabulary order, not query order.
    assert_eq!(words, vec!["embudo", "lógico"]);
    assert!(model.extract_entities("nada relevante").is_empty());
}

#[test]
fn model_processes_a_query_whole() {
    let model = LanguageModel::new();
    let processed = model.process_query("Qué es el embudo");
    assert_eq!(processed.intent, "explicar");
    assert_eq!(processed.tokens.len(), 4);
    let words: Vec<&str> = processed.entities.iter().map(|s| s.as_str()).collect();
    assert_eq!(words, vec!["embudo"]);
}

#[test]
fn model_generates_each_response_kind() {
    let model = LanguageModel::new();

    let explained = model.process_query("¿Qué es el embudo lógico?");
    assert_eq!(
        model.generate_response(&explained, "ctx"),
        "Explicación sobre: embudo, lógico"
    );

    let plain = model.process_query("¿Qué es eso?");
    assert_eq!(model.generate_response(&plain, "ctx"), "Explicación generada");

    let lookup = model.process_query("muestra el embudo");
    assert_eq!(
        model.generate_response(&lookup, "estado actual"),
        "Información: estado actual"
    );

    let other = model.process_query("hola");
    assert_eq!(
        model.generate_response(&other, "ctx"),
        "Respuesta generada por AI Driver"
    );
}

#[test]
fn model_init_marks_it_initialized() {
    let mut model = LanguageModel::new();
    model.init();
    // Initialization changes no behavior in scope; processing still works.
    assert_eq!(model.detect_intent("ver"), "consultar");
}

#[test]
fn driver_processor_delegates_to_the_model() {
    let processor = AIQueryProcessor::new();
    let processed = processor.process("qué es el embudo");
    assert_eq!(processed.intent, "explicar");
}

#[test]
fn driver_generator_delegates_to_the_model() {
    let processor = AIQueryProcessor::new();
    let generator = AIResponseGenerator::new();
    let processed = processor.process("muestra todo");
    assert_eq!(generator.generate(&processed, "algo"), "Información: algo");
}
