//! AI drivers: the language model and the query/response drivers built on it.

pub mod language_model;
pub mod query_processor;
pub mod response_generator;

pub use language_model::LanguageModel;
pub use query_processor::AIQueryProcessor;
pub use response_generator::AIResponseGenerator;

use vstd::prelude::*;

use crate::drivers::ai::language_model::spec_f3_vocabulary;

verus! {

/// The bundle of AI drivers the system exposes.
pub struct AIDriverModule {
    language_model: LanguageModel,
    query_processor: AIQueryProcessor,
    response_generator: AIResponseGenerator,
}

impl AIDriverModule {
    /// The vocabulary of the bundled language model.
    pub closed spec fn spec_vocabulary(self) -> Seq<Seq<char>> {
        self.language_model.spec_vocabulary()
    }

    /// A fresh bundle: one language model, one query processor, one response
    /// generator.
    pub fn new() -> (r: AIDriverModule)
        ensures
            r.spec_vocabulary() == spec_f3_vocabulary(),
    {
        AIDriverModule {
            language_model: LanguageModel::new(),
            query_processor: AIQueryProcessor::new(),
            response_generator: AIResponseGenerator::new(),
        }
    }

    /// Initialization point for the bundle; nothing to bring up in scope, so
    /// the drivers are left exactly as constructed.
    pub fn init(&mut self)
        ensures
            *final(self) == *old(self),
    {
    }
}

} // verus!
