//! The architect: it decides the project's scope and, where the project needs
//! outside URLs, finds and validates them.

use crate::agents::agent_traits::AsyncExecuteFunctions;
use crate::agents::base::{AgentAttributes, AgentKind, AgentState, AgentTraits};
use crate::agents::model::{
    architect_accept_candidates,
    architect_accept_statuses,
    architect_begin_testing,
    architect_begin_working,
    reachable,
    scope_request,
    urls_request,
    AgentModel,
};
use crate::agents::protocol::{
    report_failure,
    result_view,
    AgentAction,
    AgentError,
    AgentEvent,
    Pending,
    REACHABLE_STATUS,
};
use crate::ai_functions::{print_project_scope, print_site_urls};
use crate::models::llm::LLMModel;
use crate::models::project::{ProjectSpec, SpecUpdate, UserInputs};
use crate::utils::llm_requests::{
    debug_rendering,
    make_llm_request_decoded,
    parse_string_list,
    render_debug,
    ModelRequest,
    ReplyShape,
};
use vstd::prelude::*;

verus! {

/// The agent that writes `project_scope` and `external_urls`.
#[derive(Debug)]
pub struct ArchitectAgent {
    pub attributes: AgentAttributes,
    pub pending: Pending,
    /// The URLs that the model proposed, in its order, until they are validated.
    pub external_urls: Vec<String>,
}

/// A copy of `list`, string by string.
pub fn copy_strings(list: &Vec<String>) -> (copy: Vec<String>)
    ensures
        copy.deep_view() == list.deep_view(),
{
    let mut copy: Vec<String> = Vec::new();
    let mut i: usize = 0;
    while i < list.len()
        invariant
            i <= list.len(),
            copy.len() == i,
            forall|k: int| 0 <= k < i ==> copy[k]@ == list[k]@,
        decreases list.len() - i,
    {
        copy.push(list[i].clone());
        i += 1;
    }
    assert(copy.deep_view() =~= list.deep_view());
    copy
}

impl ArchitectAgent {
    /// An architect that has not started.
    pub fn new() -> (agent: Self)
        ensures
            agent.model() == AgentModel::fresh(AgentKind::Architect),
            agent.attributes.objective@
                == "Gathers information and design solutions for website development"@,
            agent.attributes.position@ == "Solutions Architect"@,
            agent.attributes.messages@.len() == 0,
    {
        let attributes = AgentAttributes::new(
            String::from_str("Gathers information and design solutions for website development"),
            String::from_str("Solutions Architect"),
        );
        let agent = ArchitectAgent {
            attributes,
            pending: Pending::Idle,
            external_urls: Vec::new(),
        };
        assert(agent.external_urls.deep_view() =~= Seq::<Seq<char>>::empty());
        agent
    }

    /// The request that asks the model to decide the scope of the project that
    /// the shared record describes.
    pub fn get_project_scope(&self, project_spec: &ProjectSpec) -> (request: ModelRequest)
        ensures
            request@ == scope_request(debug_rendering(project_spec@.project_description)),
    {
        let project_description = render_debug(&project_spec.project_description);
        make_llm_request_decoded(
            LLMModel::GPT4o(String::from_str("GPT4o")),
            print_project_scope(project_description.as_str()),
            project_description.as_str(),
            "print_project_scope",
            ReplyShape::ProjectScope,
        )
    }

    /// The request that asks the model for outside URLs, or the error where the
    /// shared record holds no project description.
    pub fn get_external_urls(&self, project_spec: &ProjectSpec) -> (request: Result<
        ModelRequest,
        AgentError,
    >)
        ensures
            match project_spec@.project_description {
                Some(description) => request is Ok && request.unwrap()@ == urls_request(
                    description,
                ),
                None => request == Err::<ModelRequest, AgentError>(
                    AgentError::MissingProjectDescription,
                ),
            },
    {
        match &project_spec.project_description {
            Some(description) => Ok(
                make_llm_request_decoded(
                    LLMModel::GPT4o(String::from_str("GPT4o")),
                    print_site_urls(description.as_str()),
                    description.as_str(),
                    "print_site_urls",
                    ReplyShape::UrlList,
                ),
            ),
            None => Err(AgentError::MissingProjectDescription),
        }
    }

    /// The URLs whose probe came back with the reachable status, in the order
    /// of `external_urls`. `statuses[i]` is the outcome of probing
    /// `external_urls[i]`; a URL without a status counts as unreachable.
    pub fn test_external_urls(external_urls: &Vec<String>, statuses: &Vec<Option<u16>>) -> (valid:
        Vec<String>)
        ensures
            valid.deep_view() == reachable(external_urls.deep_view(), statuses@),
    {
        let mut valid: Vec<String> = Vec::new();
        let mut i: usize = 0;
        assert(external_urls.deep_view().take(0) =~= Seq::<Seq<char>>::empty());
        assert(valid.deep_view() =~= Seq::<Seq<char>>::empty());
        while i < external_urls.len()
            invariant
                i <= external_urls.len(),
                valid.deep_view() == reachable(external_urls.deep_view().take(i as int), statuses@),
            decreases external_urls.len() - i,
        {
            let ghost before = valid.deep_view();
            let ghost upto = external_urls.deep_view().take(i as int + 1);
            assert(upto.drop_last() =~= external_urls.deep_view().take(i as int));
            assert(upto.last() == external_urls[i as int]@);
            let is_reachable = i < statuses.len() && match statuses[i] {
                Some(status) => status == REACHABLE_STATUS,
                None => false,
            };
            if is_reachable {
                valid.push(external_urls[i].clone());
                assert(valid.deep_view() =~= before.push(external_urls[i as int]@));
            }
            i += 1;
        }
        assert(external_urls.deep_view().take(i as int) =~= external_urls.deep_view());
        valid
    }

    fn complete(&mut self)
        ensures
            final(self).model() == old(self).model().finish().next,
            final(self).attributes.objective == old(self).attributes.objective,
            final(self).attributes.position == old(self).attributes.position,
            final(self).attributes.messages == old(self).attributes.messages,
    {
        self.pending = Pending::Idle;
        self.attributes.update_agent_state(AgentState::Completed);
    }

    /// Enters `Working`: asks the model for candidate URLs.
    pub fn begin_working(&mut self, project_spec: &ProjectSpec) -> (result: Result<
        AgentAction,
        AgentError,
    >)
        ensures
            final(self).model() == architect_begin_working(old(self).model(), project_spec@).next,
            result_view(result) == architect_begin_working(
                old(self).model(),
                project_spec@,
            ).result,
            final(self).attributes.objective == old(self).attributes.objective,
            final(self).attributes.position == old(self).attributes.position,
            final(self).attributes.messages == old(self).attributes.messages,
    {
        match self.get_external_urls(project_spec) {
            Ok(request) => {
                self.pending = Pending::ModelReply;
                self.attributes.update_agent_state(AgentState::Working);
                Ok(AgentAction::InvokeModel(request))
            },
            Err(error) => Err(error),
        }
    }

    /// Enters `UnitTesting`: with no candidates the agent is done, else it asks
    /// for all of them to be probed.
    pub fn begin_testing(&mut self) -> (result: Result<AgentAction, AgentError>)
        ensures
            final(self).model() == architect_begin_testing(old(self).model()).next,
            result_view(result) == architect_begin_testing(old(self).model()).result,
            final(self).attributes.objective == old(self).attributes.objective,
            final(self).attributes.position == old(self).attributes.position,
            final(self).attributes.messages == old(self).attributes.messages,
    {
        if self.external_urls.len() == 0 {
            self.complete();
            Ok(AgentAction::Finished)
        } else {
            let urls = copy_strings(&self.external_urls);
            self.pending = Pending::ProbeResults;
            self.attributes.update_agent_state(AgentState::UnitTesting);
            Ok(AgentAction::ProbeUrls(urls))
        }
    }

    /// Takes the decoded reply to the request for URLs: a list becomes the
    /// agent's candidates and the agent enters `UnitTesting`; a reply that did
    /// not decode aborts the run.
    pub fn accept_candidates(&mut self, decoded: Option<Vec<String>>) -> (result: Result<
        AgentAction,
        AgentError,
    >)
        ensures
            final(self).model() == architect_accept_candidates(
                old(self).model(),
                decoded.deep_view(),
            ).next,
            result_view(result) == architect_accept_candidates(
                old(self).model(),
                decoded.deep_view(),
            ).result,
            final(self).attributes.objective == old(self).attributes.objective,
            final(self).attributes.position == old(self).attributes.position,
            final(self).attributes.messages == old(self).attributes.messages,
    {
        match decoded {
            Some(urls) => {
                self.external_urls = urls;
                self.begin_testing()
            },
            None => Err(AgentError::UndecodableModelOutput),
        }
    }

    /// Takes the statuses of the probed candidates and asks for the reachable
    /// ones to be written into the shared record.
    pub fn accept_statuses(&mut self, statuses: &Vec<Option<u16>>) -> (result: Result<
        AgentAction,
        AgentError,
    >)
        ensures
            final(self).model() == architect_accept_statuses(old(self).model(), statuses@).next,
            result_view(result) == architect_accept_statuses(old(self).model(), statuses@).result,
            final(self).attributes.objective == old(self).attributes.objective,
            final(self).attributes.position == old(self).attributes.position,
            final(self).attributes.messages == old(self).attributes.messages,
    {
        if statuses.len() == self.external_urls.len() {
            let valid = Self::test_external_urls(&self.external_urls, statuses);
            self.pending = Pending::StoreAck;
            self.attributes.update_agent_state(AgentState::UnitTesting);
            Ok(AgentAction::Store(SpecUpdate::ExternalUrls(valid)))
        } else {
            Err(AgentError::UnexpectedEvent)
        }
    }
}

impl AsyncExecuteFunctions for ArchitectAgent {
    open spec fn model(&self) -> AgentModel {
        AgentModel {
            kind: AgentKind::Architect,
            state: self.attributes.state,
            pending: self.pending,
            candidates: self.external_urls.deep_view(),
            draft: Seq::empty(),
        }
    }

    fn execute_workflow(
        &mut self,
        project_spec: &ProjectSpec,
        user_input: &UserInputs,
        event: AgentEvent,
    ) -> (result: Result<AgentAction, AgentError>)
        ensures
            final(self).attributes.objective == old(self).attributes.objective,
            final(self).attributes.position == old(self).attributes.position,
            final(self).attributes.messages == old(self).attributes.messages,
    {
        match self.attributes.state {
            AgentState::Completed => {
                return Ok(AgentAction::Finished);
            },
            _ => {},
        }
        if let Some(error) = report_failure(self.pending, &event) {
            return Err(error);
        }
        match self.attributes.state {
            AgentState::Discovery => match (self.pending, event) {
                (Pending::Idle, AgentEvent::Begin) => {
                    let request = self.get_project_scope(project_spec);
                    self.pending = Pending::ModelReply;
                    Ok(AgentAction::InvokeModel(request))
                },
                (Pending::ModelReply, AgentEvent::ModelScope(scope)) => {
                    self.pending = Pending::StoreAck;
                    Ok(AgentAction::Store(SpecUpdate::ProjectScope(scope)))
                },
                (Pending::StoreAck, AgentEvent::Stored) => match project_spec.project_scope {
                    Some(scope) => {
                        if scope.is_external_urls_required {
                            self.begin_working(project_spec)
                        } else {
                            self.complete();
                            Ok(AgentAction::Finished)
                        }
                    },
                    None => Err(AgentError::UnexpectedEvent),
                },
                _ => Err(AgentError::UnexpectedEvent),
            },
            AgentState::Working => match (self.pending, event) {
                (Pending::Idle, AgentEvent::Begin) => self.begin_working(project_spec),
                (Pending::ModelReply, AgentEvent::ModelText(text)) => {
                    let decoded = parse_string_list(text.as_str());
                    self.accept_candidates(decoded)
                },
                _ => Err(AgentError::UnexpectedEvent),
            },
            AgentState::UnitTesting => match (self.pending, event) {
                (Pending::Idle, AgentEvent::Begin) => self.begin_testing(),
                (Pending::ProbeResults, AgentEvent::ProbeStatuses(statuses)) => {
                    self.accept_statuses(&statuses)
                },
                (Pending::StoreAck, AgentEvent::Stored) => {
                    self.complete();
                    Ok(AgentAction::Finished)
                },
                _ => Err(AgentError::UnexpectedEvent),
            },
            AgentState::Completed => Ok(AgentAction::Finished),
        }
    }
}

} // verus!
