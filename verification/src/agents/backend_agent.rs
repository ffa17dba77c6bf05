//! The backend developer: it has the model write the server's source from a
//! template, the project description and the operator's language.

use crate::agents::agent_traits::AsyncExecuteFunctions;
use crate::agents::base::{AgentAttributes, AgentKind, AgentState, AgentTraits};
use crate::agents::model::{
    backend_accept_code,
    backend_accept_template,
    backend_after_store,
    backend_request,
    chosen_backend_language,
    extended_description,
    AgentModel,
};
use crate::agents::protocol::{
    report_failure,
    result_view,
    AgentAction,
    AgentError,
    AgentEvent,
    Pending,
};
use crate::ai_functions::print_backend_webserver_code;
use crate::models::llm::LLMModel;
use crate::models::project::{ProjectSpec, SpecUpdate, UserInputs};
use crate::utils::llm_requests::{make_llm_request, ModelRequest};
use vstd::prelude::*;

verus! {

/// The agent that writes `backend_code`.
#[derive(Debug)]
pub struct BackendAgent {
    pub attributes: AgentAttributes,
    pub bug_counts: u8,
    pub pending: Pending,
    /// The source that the model wrote, until it is stored.
    pub generated_code: String,
}

/// The language that the backend is built in: the operator's choice, unless it
/// is missing or empty.
pub fn preferred_backend_language(user_input: &UserInputs) -> (language: Option<String>)
    ensures
        language.deep_view() == chosen_backend_language(user_input@),
{
    match &user_input.backend_language {
        Some(language) => {
            if language.as_str().is_empty() {
                None
            } else {
                Some(language.clone())
            }
        },
        None => None,
    }
}

impl BackendAgent {
    /// A backend developer that has not started.
    pub fn new() -> (agent: Self)
        ensures
            agent.model() == AgentModel::fresh(AgentKind::Backend),
            agent.attributes.objective@
                == "Develops the backend code for webserver and json database"@,
            agent.attributes.position@ == "Backend Developer"@,
            agent.attributes.messages@.len() == 0,
            agent.bug_counts == 0,
    {
        let attributes = AgentAttributes::new(
            String::from_str("Develops the backend code for webserver and json database"),
            String::from_str("Backend Developer"),
        );
        BackendAgent {
            attributes,
            bug_counts: 0,
            pending: Pending::Idle,
            generated_code: String::new(),
        }
    }

    /// The request that asks the model for the server's source, given the
    /// template, the project description and the language to build in.
    pub fn generate_backend_code(
        code_template: &str,
        project_description: &str,
        language: &str,
    ) -> (request: ModelRequest)
        ensures
            request@ == backend_request(code_template@, project_description@, language@),
    {
        let mut description = String::from_str("CODE TEMPLATE: ");
        description.append(code_template);
        description.append(" \n PROJECT DESCRIPTION: ");
        description.append(project_description);
        description.append(" \n built using ");
        description.append(language);
        assert(description@ == extended_description(
            code_template@,
            project_description@,
            language@,
        ));
        make_llm_request(
            LLMModel::GPT4o(String::from_str("GPT4o")),
            print_backend_webserver_code(description.as_str()),
            description.as_str(),
            "print_backend_webserver_code",
        )
    }

    fn complete(&mut self)
        ensures
            final(self).model() == old(self).model().finish().next,
            final(self).attributes.objective == old(self).attributes.objective,
            final(self).attributes.position == old(self).attributes.position,
            final(self).attributes.messages == old(self).attributes.messages,
            final(self).bug_counts == old(self).bug_counts,
    {
        self.pending = Pending::Idle;
        self.attributes.update_agent_state(AgentState::Completed);
    }

    /// Takes the template that was loaded and asks the model for the source.
    pub fn accept_template(
        &mut self,
        project_spec: &ProjectSpec,
        user_input: &UserInputs,
        code_template: &str,
    ) -> (result: Result<AgentAction, AgentError>)
        ensures
            final(self).model() == backend_accept_template(
                old(self).model(),
                project_spec@,
                user_input@,
                code_template@,
            ).next,
            result_view(result) == backend_accept_template(
                old(self).model(),
                project_spec@,
                user_input@,
                code_template@,
            ).result,
            final(self).attributes.objective == old(self).attributes.objective,
            final(self).attributes.position == old(self).attributes.position,
            final(self).attributes.messages == old(self).attributes.messages,
            final(self).bug_counts == old(self).bug_counts,
    {
        match preferred_backend_language(user_input) {
            None => Err(AgentError::MissingBackendLanguage),
            Some(language) => match &project_spec.project_description {
                None => Err(AgentError::MissingProjectDescription),
                Some(description) => {
                    let request = Self::generate_backend_code(
                        code_template,
                        description.as_str(),
                        language.as_str(),
                    );
                    self.pending = Pending::ModelReply;
                    self.attributes.update_agent_state(AgentState::Discovery);
                    Ok(AgentAction::InvokeModel(request))
                },
            },
        }
    }

    /// Takes the source that the model wrote, keeps it, and asks for it to be
    /// written into the shared record. Nothing is saved before that write has
    /// gone through.
    pub fn accept_code(&mut self, user_input: &UserInputs, code: String) -> (result: Result<
        AgentAction,
        AgentError,
    >)
        ensures
            final(self).model() == backend_accept_code(old(self).model(), user_input@, code@).next,
            result_view(result) == backend_accept_code(
                old(self).model(),
                user_input@,
                code@,
            ).result,
            final(self).attributes.objective == old(self).attributes.objective,
            final(self).attributes.position == old(self).attributes.position,
            final(self).attributes.messages == old(self).attributes.messages,
            final(self).bug_counts == old(self).bug_counts,
    {
        match preferred_backend_language(user_input) {
            None => Err(AgentError::MissingBackendLanguage),
            Some(_) => {
                let draft = code.clone();
                self.generated_code = draft;
                self.pending = Pending::StoreAck;
                self.attributes.update_agent_state(AgentState::Discovery);
                Ok(AgentAction::Store(SpecUpdate::BackendCode(code)))
            },
        }
    }

    /// Takes the confirmation that the source is in the shared record and asks
    /// for it to be saved as the generated source.
    pub fn save_stored_code(&mut self, user_input: &UserInputs) -> (result: Result<
        AgentAction,
        AgentError,
    >)
        ensures
            final(self).model() == backend_after_store(old(self).model(), user_input@).next,
            result_view(result) == backend_after_store(old(self).model(), user_input@).result,
            final(self).attributes.objective == old(self).attributes.objective,
            final(self).attributes.position == old(self).attributes.position,
            final(self).attributes.messages == old(self).attributes.messages,
            final(self).bug_counts == old(self).bug_counts,
    {
        match preferred_backend_language(user_input) {
            None => Err(AgentError::MissingBackendLanguage),
            Some(language) => {
                let contents = self.generated_code.clone();
                self.pending = Pending::CodeWrite;
                self.attributes.update_agent_state(AgentState::Discovery);
                Ok(AgentAction::WriteGeneratedCode { contents, language })
            },
        }
    }
}

impl AsyncExecuteFunctions for BackendAgent {
    open spec fn model(&self) -> AgentModel {
        AgentModel {
            kind: AgentKind::Backend,
            state: self.attributes.state,
            pending: self.pending,
            candidates: Seq::empty(),
            draft: self.generated_code@,
        }
    }

    fn execute_workflow(
        &mut self,
        project_spec: &ProjectSpec,
        user_input: &UserInputs,
        event: AgentEvent,
    ) -> (result: Result<AgentAction, AgentError>)
        ensures
            final(self).attributes.objective == old(self).attributes.objective,
            final(self).attributes.position == old(self).attributes.position,
            final(self).attributes.messages == old(self).attributes.messages,
            final(self).bug_counts == old(self).bug_counts,
    {
        match self.attributes.state {
            AgentState::Completed => {
                return Ok(AgentAction::Finished);
            },
            _ => {},
        }
        if let Some(error) = report_failure(self.pending, &event) {
            return Err(error);
        }
        match self.attributes.state {
            AgentState::Discovery => match (self.pending, event) {
                (Pending::Idle, AgentEvent::Begin) => match preferred_backend_language(user_input) {
                    None => Err(AgentError::MissingBackendLanguage),
                    Some(language) => {
                        self.pending = Pending::TemplateContents;
                        Ok(AgentAction::ReadTemplate(language))
                    },
                },
                (Pending::TemplateContents, AgentEvent::TemplateContents(code_template)) => {
                    self.accept_template(project_spec, user_input, code_template.as_str())
                },
                (Pending::ModelReply, AgentEvent::ModelText(code)) => {
                    self.accept_code(user_input, code)
                },
                (Pending::StoreAck, AgentEvent::Stored) => self.save_stored_code(user_input),
                (Pending::CodeWrite, AgentEvent::CodeWritten) => {
                    self.complete();
                    Ok(AgentAction::Finished)
                },
                _ => Err(AgentError::UnexpectedEvent),
            },
            _ => {
                self.complete();
                Ok(AgentAction::Finished)
            },
        }
    }
}

} // verus!
