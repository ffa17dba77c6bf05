//! A workflow engine for a pipeline of autonomous agents.
//!
//! Every agent is a small state machine that is driven one step at a time:
//! a step takes the outcome of the previous outside action (a model reply, a
//! batch of reachability probes, a confirmation that a write went through) and
//! answers with the next action to perform. The library never performs an
//! outside action itself, so every decision of the pipeline is verified.

pub mod models;
pub mod agents;
pub mod ai_functions;
pub mod utils;
