//! The agents, the protocol they are driven by, and the workflow that runs
//! them one after another.

pub mod agent_traits;
pub mod architect_agent;
pub mod backend_agent;
pub mod base;
pub mod development_workflow;
pub mod manager_agent;
pub mod model;
pub mod protocol;
