//! What every agent holds: its lifecycle phase and its attributes.

use crate::models::llm::Message;
use vstd::prelude::*;

verus! {

/// The lifecycle phases of an agent. Every agent starts in `Discovery`;
/// `Completed` is final.
#[derive(Debug, Clone, Copy, PartialEq, Eq, Structural)]
pub enum AgentState {
    Discovery,
    Working,
    UnitTesting,
    Completed,
}

impl AgentState {
    /// How many phases lie between this phase and `Completed`, this one included.
    pub open spec fn rank(self) -> nat {
        match self {
            AgentState::Discovery => 3,
            AgentState::Working => 2,
            AgentState::UnitTesting => 1,
            AgentState::Completed => 0,
        }
    }
}

/// The variants of agent that a workflow can run.
#[derive(Debug, Clone, Copy, PartialEq, Eq, Structural)]
pub enum AgentKind {
    Manager,
    Architect,
    Backend,
}

/// Anything whose lifecycle phase can be set.
pub trait AgentTraits {
    /// The phase that the value is in.
    spec fn lifecycle_state(&self) -> AgentState;

    /// Moves to `new_state`, whatever the current phase is.
    fn update_agent_state(&mut self, new_state: AgentState)
        ensures
            final(self).lifecycle_state() == new_state,
    ;
}

/// The record that each agent keeps about itself.
#[derive(Debug, Clone)]
pub struct AgentAttributes {
    pub objective: String,
    pub position: String,
    pub state: AgentState,
    pub messages: Vec<Message>,
}

impl AgentAttributes {
    /// Attributes of an agent that has not started: phase `Discovery`, no messages.
    pub fn new(objective: String, position: String) -> (attributes: Self)
        ensures
            attributes.objective == objective,
            attributes.position == position,
            attributes.state == AgentState::Discovery,
            attributes.messages@.len() == 0,
    {
        AgentAttributes { objective, position, state: AgentState::Discovery, messages: Vec::new() }
    }
}

impl AgentTraits for AgentAttributes {
    open spec fn lifecycle_state(&self) -> AgentState {
        self.state
    }

    fn update_agent_state(&mut self, new_state: AgentState)
        ensures
            final(self).objective == old(self).objective,
            final(self).position == old(self).position,
            final(self).messages == old(self).messages,
    {
        self.state = new_state;
    }
}

} // verus!
