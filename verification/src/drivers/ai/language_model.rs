//! Language model driver: keyword-based query processing. A stub by design —
//! it tokenizes, detects one of a few fixed intents, and recognizes the F3
//! vocabulary; no real language understanding is in scope.

use vstd::prelude::*;
use vstd::string::*;

use crate::text::join_with;
use crate::text::lower_of;
use crate::text::spec_contains_sub;
use crate::text::spec_join;
use crate::text::spec_split_ws;
use crate::text::split_whitespace_tokens;
use crate::text::str_contains;
use crate::text::to_lowercase_str;

verus! {

/// The fixed F3 vocabulary the model recognizes.
pub open spec fn spec_f3_vocabulary() -> Seq<Seq<char>> {
    seq![
        "hilos"@,
        "embudo"@,
        "síntesis"@,
        "retroalimentación inversa"@,
        "fases"@,
        "lógico"@,
        "ilógico"@,
        "perfecto"@,
    ]
}

/// The intent of a query: "explicar" when its lowercase form asks what
/// something is, "consultar" when it asks to show or see, "general"
/// otherwise.
pub open spec fn spec_detect_intent(q: Seq<char>) -> Seq<char> {
    let l = lower_of(q);
    if spec_contains_sub(l, "qué es"@) {
        "explicar"@
    } else if spec_contains_sub(l, "muestra"@) || spec_contains_sub(l, "ver"@) {
        "consultar"@
    } else {
        "general"@
    }
}

/// The vocabulary entries that occur in the lowercase query, in vocabulary
/// order.
pub open spec fn spec_matching_entities(vocab: Seq<Seq<char>>, l: Seq<char>) -> Seq<Seq<char>>
    decreases vocab.len(),
{
    if vocab.len() == 0 {
        Seq::empty()
    } else {
        spec_matching_entities(vocab.drop_last(), l) + (if spec_contains_sub(l, vocab.last()) {
            seq![vocab.last()]
        } else {
            Seq::empty()
        })
    }
}

/// The response text for a processed query: an explanation (listing the
/// recognized entities when there are any), the context information on a
/// lookup, or a generic acknowledgment.
pub open spec fn spec_generate_response(
    intent: Seq<char>,
    entities: Seq<Seq<char>>,
    context: Seq<char>,
) -> Seq<char> {
    if intent == "explicar"@ {
        if entities.len() == 0 {
            "Explicación generada"@
        } else {
            "Explicación sobre: "@ + spec_join(entities, ", "@)
        }
    } else if intent == "consultar"@ {
        "Información: "@ + context
    } else {
        "Respuesta generada por AI Driver"@
    }
}

/// The model's context: its vocabulary and the patterns it has seen.
struct ModelContext {
    f3_vocabulary: Vec<String>,
    known_patterns: Vec<String>,
}

/// The integrated language model.
pub struct LanguageModel {
    initialized: bool,
    context: ModelContext,
}

/// A processed query: its tokens, its detected intent, and the vocabulary
/// entities found in it.
#[derive(Debug, Clone)]
pub struct ProcessedQuery {
    pub tokens: Vec<String>,
    pub intent: String,
    pub entities: Vec<String>,
}

impl LanguageModel {
    /// Whether `init` has run.
    pub closed spec fn spec_initialized(self) -> bool {
        self.initialized
    }

    /// The vocabulary the model matches queries against.
    pub closed spec fn spec_vocabulary(self) -> Seq<Seq<char>> {
        self.context.f3_vocabulary.deep_view()
    }

    /// The patterns the model has recorded.
    pub closed spec fn spec_patterns(self) -> Seq<Seq<char>> {
        self.context.known_patterns.deep_view()
    }

    /// A fresh model holding the fixed F3 vocabulary, not yet initialized.
    pub fn new() -> (r: LanguageModel)
        ensures
            !r.spec_initialized(),
            r.spec_vocabulary() == spec_f3_vocabulary(),
            r.spec_patterns() == Seq::<Seq<char>>::empty(),
    {
        let mut vocab: Vec<String> = Vec::new();
        vocab.push(String::from_str("hilos"));
        vocab.push(String::from_str("embudo"));
        vocab.push(String::from_str("síntesis"));
        vocab.push(String::from_str("retroalimentación inversa"));
        vocab.push(String::from_str("fases"));
        vocab.push(String::from_str("lógico"));
        vocab.push(String::from_str("ilógico"));
        vocab.push(String::from_str("perfecto"));
        let patterns: Vec<String> = Vec::new();
        let r = LanguageModel {
            initialized: false,
            context: ModelContext { f3_vocabulary: vocab, known_patterns: patterns },
        };
        proof {
            assert(r.spec_vocabulary() =~= spec_f3_vocabulary());
            assert(r.spec_patterns() =~= Seq::<Seq<char>>::empty());
        }
        r
    }

    /// Marks the model initialized; the vocabulary and patterns are
    /// untouched.
    pub fn init(&mut self)
        ensures
            final(self).spec_initialized(),
            final(self).spec_vocabulary() == old(self).spec_vocabulary(),
            final(self).spec_patterns() == old(self).spec_patterns(),
    {
        self.initialized = true;
    }

    /// Processes a query: tokens, intent and entities in one record.
    pub fn process_query(&self, query: &str) -> (r: ProcessedQuery)
        ensures
            r.tokens.deep_view() == spec_split_ws(query@),
            r.intent@ == spec_detect_intent(query@),
            r.entities.deep_view() == spec_matching_entities(
                self.spec_vocabulary(),
                lower_of(query@),
            ),
    {
        ProcessedQuery {
            tokens: self.tokenize(query),
            intent: self.detect_intent(query),
            entities: self.extract_entities(query),
        }
    }

    /// The response for a processed query, as `spec_generate_response`
    /// describes.
    pub fn generate_response(&self, processed: &ProcessedQuery, context: &str) -> (r: String)
        ensures
            r@ == spec_generate_response(
                processed.intent@,
                processed.entities.deep_view(),
                context@,
            ),
    {
        let explicar = String::from_str("explicar");
        let consultar = String::from_str("consultar");
        if processed.intent == explicar {
            if processed.entities.len() == 0 {
                String::from_str("Explicación generada")
            } else {
                let mut out = String::from_str("Explicación sobre: ");
                let joined = join_with(&processed.entities, ", ");
                out.append(joined.as_str());
                out
            }
        } else if processed.intent == consultar {
            let mut out = String::from_str("Información: ");
            out.append(context);
            out
        } else {
            String::from_str("Respuesta generada por AI Driver")
        }
    }

    /// Splits the query into whitespace-separated tokens.
    pub fn tokenize(&self, query: &str) -> (r: Vec<String>)
        ensures
            r.deep_view() == spec_split_ws(query@),
    {
        split_whitespace_tokens(query)
    }

    /// Detects the intent of the query from fixed lowercase keywords.
    pub fn detect_intent(&self, query: &str) -> (r: String)
        ensures
            r@ == spec_detect_intent(query@),
    {
        let query_lower = to_lowercase_str(query);
        if str_contains(query_lower.as_str(), "qué es") {
            String::from_str("explicar")
        } else if str_contains(query_lower.as_str(), "muestra") || str_contains(
            query_lower.as_str(),
            "ver",
        ) {
            String::from_str("consultar")
        } else {
            String::from_str("general")
        }
    }

    /// Collects the vocabulary entries occurring in the lowercase query.
    pub fn extract_entities(&self, query: &str) -> (r: Vec<String>)
        ensures
            r.deep_view() == spec_matching_entities(self.spec_vocabulary(), lower_of(query@)),
    {
        let mut entities: Vec<String> = Vec::new();
        proof {
            assert(entities.deep_view() =~= Seq::<Seq<char>>::empty());
            assert(self.spec_vocabulary().take(0) =~= Seq::<Seq<char>>::empty());
        }
        let query_lower = to_lowercase_str(query);
        let mut i: usize = 0;
        while i < self.context.f3_vocabulary.len()
            invariant
                i <= self.context.f3_vocabulary@.len(),
                query_lower@ == lower_of(query@),
                entities.deep_view() == spec_matching_entities(
                    self.spec_vocabulary().take(i as int),
                    lower_of(query@),
                ),
            decreases self.context.f3_vocabulary@.len() - i,
        {
            let ghost pre = entities.deep_view();
            let ghost dv = self.spec_vocabulary();
            let word = &self.context.f3_vocabulary[i];
            if str_contains(query_lower.as_str(), word.as_str()) {
                entities.push(word.clone());
                proof {
                    assert(entities.deep_view() =~= pre.push(dv[i as int]));
                }
            }
            proof {
                assert(dv.take(i + 1).drop_last() =~= dv.take(i as int));
                assert(dv.take(i + 1).last() == dv[i as int]);
                if spec_contains_sub(lower_of(query@), dv[i as int]) {
                    assert(entities.deep_view() =~= spec_matching_entities(
                        dv.take(i as int),
                        lower_of(query@),
                    ) + seq![dv[i as int]]);
                }
            }
            i += 1;
        }
        proof {
            assert(self.spec_vocabulary().take(self.context.f3_vocabulary@.len() as int)
                =~= self.spec_vocabulary());
        }
        entities
    }
}

} // verus!
