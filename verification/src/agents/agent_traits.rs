//! The contract that every agent of a workflow meets.

use crate::agents::model::{agent_step, AgentModel};
use crate::agents::protocol::{result_view, AgentAction, AgentError, AgentEvent};
use crate::models::project::{ProjectSpec, UserInputs};
use vstd::prelude::*;

verus! {

/// An agent whose workflow is executed one step at a time. Between two steps
/// the caller performs the action that the agent asked for, however long that
/// takes, and comes back with the event that reports its outcome.
pub trait AsyncExecuteFunctions {
    /// The agent as a state machine.
    spec fn model(&self) -> AgentModel;

    /// Takes one step of the agent's workflow: handles `event`, reading the
    /// shared record and the operator's choices, and answers with the next
    /// action. `Finished` says that the agent is `Completed`; an `Err` aborts
    /// the run and leaves the agent as it was.
    fn execute_workflow(
        &mut self,
        project_spec: &ProjectSpec,
        user_input: &UserInputs,
        event: AgentEvent,
    ) -> (result: Result<AgentAction, AgentError>)
        ensures
            final(self).model() == agent_step(
                old(self).model(),
                project_spec@,
                user_input@,
                event@,
            ).next,
            result_view(result) == agent_step(
                old(self).model(),
                project_spec@,
                user_input@,
                event@,
            ).result,
    ;
}

} // verus!
