//! Helpers around the agents: requests to the model, decoding of its replies,
//! the template store's paths and the operator's questionnaire.

pub mod command_line;
pub mod files_io;
pub mod llm_requests;
