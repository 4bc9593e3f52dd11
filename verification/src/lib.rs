//! The range of checkpoints for which the data behind a GraphQL field is available.
pub mod available_range;
pub mod call_laws;
pub mod context;
pub mod error;
pub mod names;
pub mod pipeline_laws;
pub mod pipeline_needs;
pub mod pipelines;
pub mod range_laws;
pub mod string_set;
pub mod strings;
pub mod watermarks;
