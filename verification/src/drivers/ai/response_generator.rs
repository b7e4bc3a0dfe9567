//! Response generator driver: turns a processed query into response text.

use vstd::prelude::*;

use crate::drivers::ai::language_model::LanguageModel;
use crate::drivers::ai::language_model::ProcessedQuery;
use crate::drivers::ai::language_model::spec_f3_vocabulary;
use crate::drivers::ai::language_model::spec_generate_response;

verus! {

/// Generates responses through its own language model.
pub struct AIResponseGenerator {
    language_model: LanguageModel,
}

impl AIResponseGenerator {
    /// The vocabulary of the embedded language model.
    pub closed spec fn spec_vocabulary(self) -> Seq<Seq<char>> {
        self.language_model.spec_vocabulary()
    }

    /// A fresh generator over a fresh language model.
    pub fn new() -> (r: AIResponseGenerator)
        ensures
            r.spec_vocabulary() == spec_f3_vocabulary(),
    {
        AIResponseGenerator { language_model: LanguageModel::new() }
    }

    /// The response text for a processed query.
    pub fn generate(&self, processed: &ProcessedQuery, context: &str) -> (r: String)
        ensures
            r@ == spec_generate_response(
                processed.intent@,
                processed.entities.deep_view(),
                context@,
            ),
    {
        self.language_model.generate_response(processed, context)
    }
}

} // verus!
