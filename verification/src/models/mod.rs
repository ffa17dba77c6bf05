//! Plain data shared by the agents of one run.

pub mod llm;
pub mod project;
