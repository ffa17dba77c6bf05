//! The manager: it turns the operator's request into the project description.

use crate::agents::agent_traits::AsyncExecuteFunctions;
use crate::agents::base::{AgentAttributes, AgentKind, AgentState, AgentTraits};
use crate::agents::model::AgentModel;
use crate::agents::protocol::{
    report_failure,
    AgentAction,
    AgentError,
    AgentEvent,
    Pending,
};
use crate::ai_functions::{convert_user_input_to_goal, convert_user_input_to_goal_text};
use crate::models::llm::LLMModel;
use crate::models::project::{ProjectSpec, SpecUpdate, UserInputs};
use crate::utils::llm_requests::{make_llm_request, model_request, ModelRequest, ReplyShape};
use vstd::prelude::*;

verus! {

/// The agent that writes `project_description`.
#[derive(Debug)]
pub struct ManagerAgent {
    pub attributes: AgentAttributes,
    pub pending: Pending,
}

impl ManagerAgent {
    /// A manager that has not started.
    pub fn new() -> (agent: Self)
        ensures
            agent.model() == AgentModel::fresh(AgentKind::Manager),
            agent.attributes.objective@
                == "manage agents that are bulding the application for the end user"@,
            agent.attributes.position@ == "Project Manager"@,
            agent.attributes.messages@.len() == 0,
    {
        let attributes = AgentAttributes::new(
            String::from_str("manage agents that are bulding the application for the end user"),
            String::from_str("Project Manager"),
        );
        ManagerAgent { attributes, pending: Pending::Idle }
    }

    /// The request that asks `llm_model` to rewrite `user_req` as a goal.
    pub fn articulate_project_description(&self, user_req: &str, llm_model: LLMModel) -> (request:
        ModelRequest)
        ensures
            request@ == model_request(
                llm_model@,
                convert_user_input_to_goal_text(),
                user_req@,
                "convert_user_input_to_goal"@,
                ReplyShape::Text,
            ),
    {
        make_llm_request(
            llm_model,
            convert_user_input_to_goal(user_req),
            user_req,
            "convert_user_input_to_goal",
        )
    }
}

impl AsyncExecuteFunctions for ManagerAgent {
    open spec fn model(&self) -> AgentModel {
        AgentModel {
            kind: AgentKind::Manager,
            state: self.attributes.state,
            pending: self.pending,
            candidates: Seq::empty(),
            draft: Seq::empty(),
        }
    }

    fn execute_workflow(
        &mut self,
        project_spec: &ProjectSpec,
        user_input: &UserInputs,
        event: AgentEvent,
    ) -> (result: Result<AgentAction, AgentError>)
        ensures
            final(self).attributes.objective == old(self).attributes.objective,
            final(self).attributes.position == old(self).attributes.position,
            final(self).attributes.messages == old(self).attributes.messages,
    {
        match self.attributes.state {
            AgentState::Completed => {
                return Ok(AgentAction::Finished);
            },
            _ => {},
        }
        if let Some(error) = report_failure(self.pending, &event) {
            return Err(error);
        }
        match self.attributes.state {
            AgentState::Discovery => match (self.pending, event) {
                (Pending::Idle, AgentEvent::Begin) => {
                    let request = self.articulate_project_description(
                        user_input.project_to_build.as_str(),
                        LLMModel::Llama3(String::from_str("Llama3")),
                    );
                    self.pending = Pending::ModelReply;
                    Ok(AgentAction::InvokeModel(request))
                },
                (Pending::ModelReply, AgentEvent::ModelText(text)) => {
                    self.pending = Pending::StoreAck;
                    Ok(AgentAction::Store(SpecUpdate::ProjectDescription(text)))
                },
                (Pending::StoreAck, AgentEvent::Stored) => {
                    self.pending = Pending::Idle;
                    self.attributes.update_agent_state(AgentState::Completed);
                    Ok(AgentAction::Finished)
                },
                _ => Err(AgentError::UnexpectedEvent),
            },
            _ => {
                self.pending = Pending::Idle;
                self.attributes.update_agent_state(AgentState::Completed);
                Ok(AgentAction::Finished)
            },
        }
    }
}

} // verus!
