//! A verified core for a multi-stage, LLM-driven code-generation pipeline.
//!
//! A one-line project request flows through a sequence of role-specialized
//! agents: an architect derives the project scope and any external URLs the
//! service will need, and a backend developer generates code and drives a
//! bounded build-fix loop over an external build tool.  The shared project
//! state (the fact sheet), the per-agent state machines, the retry contract
//! for talking to the LLM, and the JSON codec for the structured answers are
//! all verified here.  The unverified shell around this crate performs the
//! actual network, console, file-system and build-tool calls and hands their
//! results back as plain values.

pub mod agent_architect;
pub mod agent_backend;
pub mod agent_basic;
pub mod agent_traits;
pub mod ai_functions;
pub mod error;
pub mod json;
pub mod llm;
pub mod managing_agent;
pub mod requester;
