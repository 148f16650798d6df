//! Commit-message generation library.
//!
//! Generates a one-line commit message for a set of staged changes, either
//! through a hosted chat-completion HTTP API or through a locally installed
//! offline model process, with a deterministic remote-to-local fallback
//! policy. The library holds the decision logic: configuration parsing,
//! backend selection, prompt and request construction, and the orchestration
//! state machine. Performing the HTTP call and the subprocess invocations is
//! the caller's job; the caller drives the state machine by carrying out each
//! requested action and feeding the outcome back in.

pub mod config;
pub mod local;
pub mod orchestrator;
pub mod prompt;
pub mod remote;
pub mod text;
