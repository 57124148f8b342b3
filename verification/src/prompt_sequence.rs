//! Prompt sequences: filters, cases, and the outcome of matching a filter
//! against a prompt.
pub mod case;
pub mod filter;
pub mod matching;
pub mod sequence;

pub use case::{PromptCase, PromptCaseView};
pub use filter::{PromptFilter, PromptFilterView};
pub use matching::{MatchAttempt, MatchAttemptView, MatchFailure, MatchFailureView};
pub use sequence::{
    LoadError, LoadErrorView, PromptSequence, PromptSequenceView, TypedPromptCase,
    TypedPromptCaseView,
};
