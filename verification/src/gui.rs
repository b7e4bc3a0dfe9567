//! The query-processing front end: one process per user query, a pool that
//! separates them, the per-query AI driver, and the window bookkeeping.

pub mod ai_driver;
pub mod query_process;
pub mod query_processor;
pub mod windows;

pub use ai_driver::AIDriver;
pub use query_process::QueryProcess;
pub use query_processor::QueryProcessor;
