//! Per-query AI driver: analyzes the query, generates a canned response, and
//! feeds the F3 trackers and scorer with the metrics of both steps. Keyword
//! matching only; no real language understanding is in scope.

use vstd::prelude::*;
use vstd::string::*;
use vstd::utf8::encode_utf8;

use crate::f3::controller::F3Core;
use crate::f3::cpu::CpuFlow;
use crate::f3::mem::MemFlow;
use crate::f3::mem::spec_synthesize;
use crate::f3::ram::RamFlow;
use crate::text::lower_of;
use crate::text::spec_contains_sub;
use crate::text::str_contains;
use crate::text::to_lowercase_str;

verus! {

/// The processing stages of one query.
#[derive(Debug, Clone, Copy, PartialEq, Eq, Structural)]
pub enum AIProcessingState {
    /// Analyzing the query.
    Analyzing,
    /// Generating the response.
    Generating,
    /// Synthesizing with F3.
    Synthesizing,
    /// Done.
    Completed,
}

/// The intent the driver detects: one of five fixed kinds, from lowercase
/// keywords, first match wins.
pub open spec fn spec_ai_intent(q: Seq<char>) -> Seq<char> {
    let l = lower_of(q);
    if spec_contains_sub(l, "qué es"@) || spec_contains_sub(l, "qué es el"@) {
        "explicar"@
    } else if spec_contains_sub(l, "muestra"@) || spec_contains_sub(l, "ver"@) {
        "mostrar"@
    } else if spec_contains_sub(l, "abre"@) || spec_contains_sub(l, "ejecuta"@) {
        "ejecutar"@
    } else if spec_contains_sub(l, "estado"@) || spec_contains_sub(l, "status"@) {
        "consultar_estado"@
    } else {
        "general"@
    }
}

/// The F3 keywords the driver extracts from the lowercase query, in fixed
/// order.
pub open spec fn spec_ai_entities(q: Seq<char>) -> Seq<Seq<char>> {
    let l = lower_of(q);
    (if spec_contains_sub(l, "f3"@) {
        seq!["F3"@]
    } else {
        Seq::<Seq<char>>::empty()
    }) + (if spec_contains_sub(l, "modelo"@) {
        seq!["modelo"@]
    } else {
        Seq::<Seq<char>>::empty()
    }) + (if spec_contains_sub(l, "hilos"@) {
        seq!["hilos"@]
    } else {
        Seq::<Seq<char>>::empty()
    }) + (if spec_contains_sub(l, "embudo"@) {
        seq!["embudo"@]
    } else {
        Seq::<Seq<char>>::empty()
    })
}

/// The canned response text for each intent.
pub open spec fn spec_response_text(intent: Seq<char>) -> Seq<char> {
    if intent == "explicar"@ {
        "Explicación generada"@
    } else if intent == "mostrar"@ {
        "Mostrando información solicitada..."@
    } else if intent == "ejecutar"@ {
        "Ejecutando acción solicitada..."@
    } else if intent == "consultar_estado"@ {
        "Estado F3 consultado"@
    } else {
        "Procesando consulta..."@
    }
}

/// The abstract value of the F3 snapshot a context carries.
#[verifier::ext_equal]
pub struct F3SystemStateView {
    pub phase: Seq<char>,
    pub entropy: u8,
    pub perfection_score: i16,
}

/// A plain snapshot of the F3 state, as text and numbers.
#[derive(Debug, Clone)]
pub struct F3SystemState {
    pub phase: String,
    pub entropy: u8,
    pub perfection_score: i16,
}

impl View for F3SystemState {
    type V = F3SystemStateView;

    closed spec fn view(&self) -> F3SystemStateView {
        F3SystemStateView {
            phase: self.phase@,
            entropy: self.entropy,
            perfection_score: self.perfection_score,
        }
    }
}

/// The abstract value of a query context.
#[verifier::ext_equal]
pub struct QueryContextView {
    pub history: Seq<Seq<char>>,
    pub entities: Seq<Seq<char>>,
    pub intent: Seq<char>,
    pub f3_state: F3SystemStateView,
}

/// The context of one query: its history, the entities and intent found so
/// far, and an F3 snapshot.
#[derive(Debug, Clone)]
pub struct QueryContext {
    history: Vec<String>,
    entities: Vec<String>,
    intent: String,
    f3_state: F3SystemState,
}

impl View for QueryContext {
    type V = QueryContextView;

    closed spec fn view(&self) -> QueryContextView {
        QueryContextView {
            history: self.history.deep_view(),
            entities: self.entities.deep_view(),
            intent: self.intent@,
            f3_state: self.f3_state@,
        }
    }
}

/// The analysis of one query.
#[derive(Debug, Clone)]
pub struct QueryAnalysis {
    pub intent: String,
    pub entities: Vec<String>,
    pub complexity: u32,
    pub processing_time: u32,
}

/// The generated response and its cost metrics.
#[derive(Debug, Clone)]
pub struct AIResponse {
    pub text: String,
    pub context_size: usize,
    pub memory_pressure: u8,
}

/// Everything one `process_query` run produces.
#[derive(Debug, Clone)]
pub struct ProcessedQuery {
    pub query_id: u64,
    pub original_query: String,
    pub analysis: QueryAnalysis,
    pub response: AIResponse,
    pub synthesized: MemFlow,
}

/// The abstract value of an AI driver.
#[verifier::ext_equal]
pub struct AIDriverView {
    pub query_id: u64,
    pub query: Seq<char>,
    pub context: QueryContextView,
    pub processing_state: AIProcessingState,
}

/// The AI driver of one query process.
pub struct AIDriver {
    query_id: u64,
    query: String,
    context: QueryContext,
    processing_state: AIProcessingState,
}

impl View for AIDriver {
    type V = AIDriverView;

    closed spec fn view(&self) -> AIDriverView {
        AIDriverView {
            query_id: self.query_id,
            query: self.query@,
            context: self.context@,
            processing_state: self.processing_state,
        }
    }
}

impl AIDriver {
    /// A fresh driver for one query: the query alone in the history, no
    /// entities or intent yet, a neutral F3 snapshot, stage Analyzing.
    pub fn new(query_id: u64, query: String) -> (r: AIDriver)
        ensures
            r@ == (AIDriverView {
                query_id,
                query: query@,
                context: QueryContextView {
                    history: seq![query@],
                    entities: Seq::empty(),
                    intent: Seq::empty(),
                    f3_state: F3SystemStateView {
                        phase: "logical"@,
                        entropy: 0,
                        perfection_score: 0,
                    },
                },
                processing_state: AIProcessingState::Analyzing,
            }),
    {
        let query_copy = query.clone();
        let mut history: Vec<String> = Vec::new();
        history.push(query);
        let r = AIDriver {
            query_id,
            query: query_copy,
            context: QueryContext {
                history,
                entities: Vec::new(),
                intent: String::new(),
                f3_state: F3SystemState {
                    phase: String::from_str("logical"),
                    entropy: 0,
                    perfection_score: 0,
                },
            },
            processing_state: AIProcessingState::Analyzing,
        };
        proof {
            assert(r@.context.history =~= seq![query@]);
            assert(r@.context.entities =~= Seq::<Seq<char>>::empty());
            assert(r@.context =~= (QueryContextView {
                history: seq![query@],
                entities: Seq::empty(),
                intent: Seq::empty(),
                f3_state: F3SystemStateView {
                    phase: "logical"@,
                    entropy: 0,
                    perfection_score: 0,
                },
            }));
            assert(r@ =~= (AIDriverView {
                query_id,
                query: query@,
                context: QueryContextView {
                    history: seq![query@],
                    entities: Seq::empty(),
                    intent: Seq::empty(),
                    f3_state: F3SystemStateView {
                        phase: "logical"@,
                        entropy: 0,
                        perfection_score: 0,
                    },
                },
                processing_state: AIProcessingState::Analyzing,
            }));
        }
        r
    }

    /// Runs the whole pipeline on the query: analysis (recorded as execution
    /// metrics), response generation (recorded as memory usage), and
    /// synthesis; the driver finishes Completed with the analysis stored in
    /// its context.
    pub fn process_query(&mut self, core: &mut F3Core) -> (r: ProcessedQuery)
        requires
            encode_utf8(old(self)@.query).len() <= u32::MAX,
        ensures
            ({
                let q = old(self)@.query;
                let intent = spec_ai_intent(q);
                let ents = spec_ai_entities(q);
                let synth = spec_synthesize(
                    old(core).mem,
                    r.analysis.complexity as u64,
                    50,
                    50,
                );
                &&& r.query_id == old(self)@.query_id
                &&& r.original_query@ == q
                &&& r.analysis.intent@ == intent
                &&& r.analysis.entities.deep_view() == ents
                &&& r.analysis.complexity as nat == encode_utf8(q).len()
                &&& r.analysis.processing_time == 50
                &&& r.response.text@ == spec_response_text(intent)
                &&& r.response.context_size as nat == old(self)@.context.history.len()
                &&& r.response.memory_pressure == 50
                &&& r.synthesized == synth
                &&& *final(core) == (F3Core {
                    cpu: CpuFlow {
                        task_id: old(self)@.query_id,
                        cycles_used: r.analysis.complexity as u64,
                        last_latency: 50,
                        active: old(core).cpu.active,
                    },
                    ram: RamFlow {
                        task_id: old(self)@.query_id,
                        memory_used: r.response.context_size,
                        pressure: 50,
                        active: old(core).ram.active,
                    },
                    mem: synth,
                    state: old(core).state,
                })
                &&& final(self)@ == (AIDriverView {
                    context: QueryContextView {
                        intent,
                        entities: ents,
                        ..old(self)@.context
                    },
                    processing_state: AIProcessingState::Completed,
                    ..old(self)@
                })
            }),
    {
        self.processing_state = AIProcessingState::Analyzing;
        let analysis = self.analyze_query();

        core.cpu.record_execution(
            self.query_id,
            analysis.complexity as u64,
            analysis.processing_time,
        );

        self.processing_state = AIProcessingState::Generating;
        let response = self.generate_response(&analysis);

        core.ram.record_usage(self.query_id, response.context_size, response.memory_pressure);

        self.processing_state = AIProcessingState::Synthesizing;
        let synthesized = core.mem.synthesize(
            analysis.complexity as u64,
            response.memory_pressure,
            analysis.processing_time,
        );

        self.processing_state = AIProcessingState::Completed;

        proof {
            assert(self@ =~= (AIDriverView {
                context: QueryContextView {
                    intent: spec_ai_intent(old(self)@.query),
                    entities: spec_ai_entities(old(self)@.query),
                    ..old(self)@.context
                },
                processing_state: AIProcessingState::Completed,
                ..old(self)@
            }));
        }
        ProcessedQuery {
            query_id: self.query_id,
            original_query: self.query.clone(),
            analysis,
            response,
            synthesized,
        }
    }

    /// Analyzes the query: detects its intent and entities (stored in the
    /// context too), measures its complexity as its UTF-8 byte length, and
    /// estimates the processing time.
    pub fn analyze_query(&mut self) -> (r: QueryAnalysis)
        requires
            encode_utf8(old(self)@.query).len() <= u32::MAX,
        ensures
            r.intent@ == spec_ai_intent(old(self)@.query),
            r.entities.deep_view() == spec_ai_entities(old(self)@.query),
            r.complexity as nat == encode_utf8(old(self)@.query).len(),
            r.processing_time == 50,
            final(self)@ == (AIDriverView {
                context: QueryContextView {
                    intent: spec_ai_intent(old(self)@.query),
                    entities: spec_ai_entities(old(self)@.query),
                    ..old(self)@.context
                },
                ..old(self)@
            }),
    {
        let query_copy = self.query.clone();

        let intent = self.detect_intent(query_copy.as_str());
        self.context.intent = intent.clone();

        let entities = self.extract_entities(query_copy.as_str());
        self.context.entities = entities.clone();

        let complexity = query_copy.as_str().len() as u32;

        proof {
            assert(self.context.entities.deep_view() =~= entities.deep_view());
            assert(self@ =~= (AIDriverView {
                context: QueryContextView {
                    intent: spec_ai_intent(old(self)@.query),
                    entities: spec_ai_entities(old(self)@.query),
                    ..old(self)@.context
                },
                ..old(self)@
            }));
        }
        QueryAnalysis { intent, entities, complexity, processing_time: 50 }
    }

    /// Detects the intent of the query from fixed lowercase keywords.
    pub fn detect_intent(&self, query: &str) -> (r: String)
        ensures
            r@ == spec_ai_intent(query@),
    {
        let query_lower = to_lowercase_str(query);

        if str_contains(query_lower.as_str(), "qué es") || str_contains(
            query_lower.as_str(),
            "qué es el",
        ) {
            String::from_str("explicar")
        } else if str_contains(query_lower.as_str(), "muestra") || str_contains(
            query_lower.as_str(),
            "ver",
        ) {
            String::from_str("mostrar")
        } else if str_contains(query_lower.as_str(), "abre") || str_contains(
            query_lower.as_str(),
            "ejecuta",
        ) {
            String::from_str("ejecutar")
        } else if str_contains(query_lower.as_str(), "estado") || str_contains(
            query_lower.as_str(),
            "status",
        ) {
            String::from_str("consultar_estado")
        } else {
            String::from_str("general")
        }
    }

    /// Collects the fixed F3 keywords occurring in the lowercase query.
    pub fn extract_entities(&self, query: &str) -> (r: Vec<String>)
        ensures
            r.deep_view() == spec_ai_entities(query@),
    {
        let ghost l = lower_of(query@);
        let ghost e1: Seq<Seq<char>> = if spec_contains_sub(l, "f3"@) {
            seq!["F3"@]
        } else {
            Seq::<Seq<char>>::empty()
        };
        let ghost e2: Seq<Seq<char>> = if spec_contains_sub(l, "modelo"@) {
            seq!["modelo"@]
        } else {
            Seq::<Seq<char>>::empty()
        };
        let ghost e3: Seq<Seq<char>> = if spec_contains_sub(l, "hilos"@) {
            seq!["hilos"@]
        } else {
            Seq::<Seq<char>>::empty()
        };
        let ghost e4: Seq<Seq<char>> = if spec_contains_sub(l, "embudo"@) {
            seq!["embudo"@]
        } else {
            Seq::<Seq<char>>::empty()
        };

        let mut entities: Vec<String> = Vec::new();
        let query_lower = to_lowercase_str(query);

        if str_contains(query_lower.as_str(), "f3") {
            entities.push(String::from_str("F3"));
        }
        proof {
            assert(entities.deep_view() =~= e1);
        }
        let ghost d1 = entities.deep_view();
        if str_contains(query_lower.as_str(), "modelo") {
            entities.push(String::from_str("modelo"));
        }
        proof {
            assert(entities.deep_view() =~= d1 + e2);
        }
        let ghost d2 = entities.deep_view();
        if str_contains(query_lower.as_str(), "hilos") {
            entities.push(String::from_str("hilos"));
        }
        proof {
            assert(entities.deep_view() =~= d2 + e3);
        }
        let ghost d3 = entities.deep_view();
        if str_contains(query_lower.as_str(), "embudo") {
            entities.push(String::from_str("embudo"));
        }
        proof {
            assert(entities.deep_view() =~= d3 + e4);
            assert(entities.deep_view() =~= spec_ai_entities(query@));
        }
        entities
    }

    /// Generates the canned response for the analyzed intent; the metrics
    /// are the history size and a fixed pressure estimate. The driver itself
    /// is untouched.
    pub fn generate_response(&mut self, analysis: &QueryAnalysis) -> (r: AIResponse)
        ensures
            r.text@ == spec_response_text(analysis.intent@),
            r.context_size as nat == old(self)@.context.history.len(),
            r.memory_pressure == 50,
            *final(self) == *old(self),
    {
        let explicar = String::from_str("explicar");
        let mostrar = String::from_str("mostrar");
        let ejecutar = String::from_str("ejecutar");
        let consultar_estado = String::from_str("consultar_estado");

        let response_text = if analysis.intent == explicar {
            String::from_str("Explicación generada")
        } else if analysis.intent == mostrar {
            String::from_str("Mostrando información solicitada...")
        } else if analysis.intent == ejecutar {
            String::from_str("Ejecutando acción solicitada...")
        } else if analysis.intent == consultar_estado {
            String::from_str("Estado F3 consultado")
        } else {
            String::from_str("Procesando consulta...")
        };

        AIResponse {
            text: response_text,
            context_size: self.context.history.len(),
            memory_pressure: 50,
        }
    }

    /// The context of the query.
    pub fn get_context(&self) -> (r: &QueryContext)
        ensures
            r@ == self@.context,
    {
        &self.context
    }
}

} // verus!
