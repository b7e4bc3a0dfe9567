//! Query processor driver: hands user queries to the language model.

use vstd::prelude::*;

use crate::drivers::ai::language_model::LanguageModel;
use crate::drivers::ai::language_model::ProcessedQuery;
use crate::drivers::ai::language_model::spec_detect_intent;
use crate::drivers::ai::language_model::spec_f3_vocabulary;
use crate::drivers::ai::language_model::spec_matching_entities;
use crate::text::lower_of;
use crate::text::spec_split_ws;

verus! {

/// Processes user queries through its own language model.
pub struct AIQueryProcessor {
    language_model: LanguageModel,
}

impl AIQueryProcessor {
    /// The vocabulary of the embedded language model.
    pub closed spec fn spec_vocabulary(self) -> Seq<Seq<char>> {
        self.language_model.spec_vocabulary()
    }

    /// A fresh processor over a fresh language model.
    pub fn new() -> (r: AIQueryProcessor)
        ensures
            r.spec_vocabulary() == spec_f3_vocabulary(),
    {
        AIQueryProcessor { language_model: LanguageModel::new() }
    }

    /// Processes one user query.
    pub fn process(&self, query: &str) -> (r: ProcessedQuery)
        ensures
            r.tokens.deep_view() == spec_split_ws(query@),
            r.intent@ == spec_detect_intent(query@),
            r.entities.deep_view() == spec_matching_entities(
                self.spec_vocabulary(),
                lower_of(query@),
            ),
    {
        self.language_model.process_query(query)
    }
}

} // verus!
