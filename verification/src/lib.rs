//! Scripted matching of access-control prompts.
//!
//! A prompt sequence is an ordered, versioned list of prompt cases. Each case
//! pairs a filter with a canned reply. A filter is matched against a prompt
//! received from the confinement daemon; on a mismatch the attempt reports,
//! field by field and in a fixed order, which attributes disagreed.
pub mod document;
pub mod prompt_sequence;
pub mod render;
pub mod simple_client;
pub mod snapd_client;
