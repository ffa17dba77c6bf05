//! The agents as mathematical state machines, and the laws that hold of them.
//!
//! The executable agents are proved to take exactly the steps defined here.

use crate::agents::base::{AgentKind, AgentState};
use crate::agents::protocol::{
    AgentActionView,
    AgentError,
    AgentEventView,
    reported_failure,
    Pending,
    REACHABLE_STATUS,
};
use crate::ai_functions::{
    convert_user_input_to_goal_text,
    print_backend_webserver_code_text,
    print_project_scope_text,
    print_site_urls_text,
};
use crate::models::llm::LLMModelView;
use crate::models::project::{ProjectSpecView, SpecField, SpecUpdateView, UserInputsView};
use crate::utils::llm_requests::{
    debug_rendering,
    decoded_string_list,
    model_request,
    ModelRequestView,
    ReplyShape,
};
use vstd::prelude::*;

verus! {

/// The state of an agent, as far as its steps depend on it.
pub struct AgentModel {
    pub kind: AgentKind,
    pub state: AgentState,
    pub pending: Pending,
    /// The URLs that an architect got from the model and has yet to validate.
    pub candidates: Seq<Seq<char>>,
    /// The source that a backend agent got from the model and has yet to store.
    pub draft: Seq<char>,
}

/// What one step leads to: the agent afterwards, and what it hands back.
pub struct StepOutcome {
    pub next: AgentModel,
    pub result: Result<AgentActionView, AgentError>,
}

/// One report to an agent, with the shared record as it is when the report arrives.
pub struct Stimulus {
    pub spec: ProjectSpecView,
    pub event: AgentEventView,
}

impl AgentModel {
    /// An agent of the given kind that has not started.
    pub open spec fn fresh(kind: AgentKind) -> AgentModel {
        AgentModel {
            kind,
            state: AgentState::Discovery,
            pending: Pending::Idle,
            candidates: Seq::empty(),
            draft: Seq::empty(),
        }
    }

    /// An upper bound on the number of steps that the agent can still take
    /// before it is `Completed`.
    pub open spec fn steps_left(self) -> nat {
        if self.state == AgentState::Completed {
            0
        } else {
            self.state.rank() * 6 + self.pending.rank()
        }
    }

    /// The step that aborts the run and leaves the agent as it is.
    pub open spec fn fail(self, error: AgentError) -> StepOutcome {
        StepOutcome { next: self, result: Err(error) }
    }

    /// The step that completes the agent.
    pub open spec fn finish(self) -> StepOutcome {
        StepOutcome {
            next: AgentModel { state: AgentState::Completed, pending: Pending::Idle, ..self },
            result: Ok(AgentActionView::Finished),
        }
    }

    /// The step on an agent that is `Completed` already: nothing changes.
    pub open spec fn stay_finished(self) -> StepOutcome {
        StepOutcome { next: self, result: Ok(AgentActionView::Finished) }
    }

    /// The step that asks for `action` and waits, in `state`, for `pending`.
    pub open spec fn ask(
        self,
        state: AgentState,
        pending: Pending,
        action: AgentActionView,
    ) -> StepOutcome {
        StepOutcome { next: AgentModel { state, pending, ..self }, result: Ok(action) }
    }
}

impl AgentKind {
    /// Whether agents of this kind are the ones that write `field`.
    pub open spec fn writes(self, field: SpecField) -> bool {
        match field {
            SpecField::ProjectDescription => self == AgentKind::Manager,
            SpecField::ProjectScope => self == AgentKind::Architect,
            SpecField::ExternalUrls => self == AgentKind::Architect,
            SpecField::BackendCode => self == AgentKind::Backend,
            SpecField::FrontendCode => false,
        }
    }
}

/// The candidates whose probe came back with the reachable status, in the
/// order of the candidates. A candidate without a status counts as unreachable.
pub open spec fn reachable(candidates: Seq<Seq<char>>, statuses: Seq<Option<u16>>) -> Seq<
    Seq<char>,
>
    decreases candidates.len(),
{
    if candidates.len() == 0 {
        Seq::empty()
    } else {
        let earlier = reachable(candidates.drop_last(), statuses);
        let last = candidates.len() - 1;
        if last < statuses.len() && statuses[last] == Some(REACHABLE_STATUS) {
            earlier.push(candidates.last())
        } else {
            earlier
        }
    }
}

/// The language that the backend is built in: the operator's choice, unless it
/// is missing or empty.
pub open spec fn chosen_backend_language(user: UserInputsView) -> Option<Seq<char>> {
    match user.backend_language {
        Some(language) => if language.len() > 0 {
            Some(language)
        } else {
            None
        },
        None => None,
    }
}

/// The manager's request: rewrite the operator's text as a goal.
pub open spec fn goal_request(project_to_build: Seq<char>) -> ModelRequestView {
    model_request(
        LLMModelView::Llama3("Llama3"@),
        convert_user_input_to_goal_text(),
        project_to_build,
        "convert_user_input_to_goal"@,
        ReplyShape::Text,
    )
}

/// The architect's first request: decide the scope of the described project.
pub open spec fn scope_request(rendered_description: Seq<char>) -> ModelRequestView {
    model_request(
        LLMModelView::GPT4o("GPT4o"@),
        print_project_scope_text(),
        rendered_description,
        "print_project_scope"@,
        ReplyShape::ProjectScope,
    )
}

/// The architect's second request: list outside URLs for the described project.
pub open spec fn urls_request(description: Seq<char>) -> ModelRequestView {
    model_request(
        LLMModelView::GPT4o("GPT4o"@),
        print_site_urls_text(),
        description,
        "print_site_urls"@,
        ReplyShape::UrlList,
    )
}

/// What the backend agent tells the model about the code it wants.
pub open spec fn extended_description(
    template: Seq<char>,
    description: Seq<char>,
    language: Seq<char>,
) -> Seq<char> {
    "CODE TEMPLATE: "@ + template + " \n PROJECT DESCRIPTION: "@ + description
        + " \n built using "@ + language
}

/// The backend agent's request: write the server's source.
pub open spec fn backend_request(
    template: Seq<char>,
    description: Seq<char>,
    language: Seq<char>,
) -> ModelRequestView {
    model_request(
        LLMModelView::GPT4o("GPT4o"@),
        print_backend_webserver_code_text(),
        extended_description(template, description, language),
        "print_backend_webserver_code"@,
        ReplyShape::Text,
    )
}

/// One step of a manager.
pub open spec fn manager_step(
    agent: AgentModel,
    user: UserInputsView,
    event: AgentEventView,
) -> StepOutcome {
    match agent.state {
        AgentState::Completed => agent.stay_finished(),
        AgentState::Working | AgentState::UnitTesting => agent.finish(),
        AgentState::Discovery => match (agent.pending, event) {
            (Pending::Idle, AgentEventView::Begin) => agent.ask(
                AgentState::Discovery,
                Pending::ModelReply,
                AgentActionView::InvokeModel(goal_request(user.project_to_build)),
            ),
            (Pending::ModelReply, AgentEventView::ModelText(text)) => agent.ask(
                AgentState::Discovery,
                Pending::StoreAck,
                AgentActionView::Store(SpecUpdateView::ProjectDescription(text)),
            ),
            (Pending::StoreAck, AgentEventView::Stored) => agent.finish(),
            _ => agent.fail(AgentError::UnexpectedEvent),
        },
    }
}

/// An architect enters `Working`: it asks the model for candidate URLs.
pub open spec fn architect_begin_working(agent: AgentModel, spec: ProjectSpecView) -> StepOutcome {
    match spec.project_description {
        Some(description) => agent.ask(
            AgentState::Working,
            Pending::ModelReply,
            AgentActionView::InvokeModel(urls_request(description)),
        ),
        None => agent.fail(AgentError::MissingProjectDescription),
    }
}

/// An architect enters `UnitTesting`: with no candidates it is done, else it
/// asks for all of them to be probed.
pub open spec fn architect_begin_testing(agent: AgentModel) -> StepOutcome {
    if agent.candidates.len() == 0 {
        agent.finish()
    } else {
        agent.ask(
            AgentState::UnitTesting,
            Pending::ProbeResults,
            AgentActionView::ProbeUrls(agent.candidates),
        )
    }
}

/// An architect in `Working` gets the decoded reply of the model: it keeps the
/// list as its candidates and enters `UnitTesting`.
pub open spec fn architect_accept_candidates(
    agent: AgentModel,
    decoded: Option<Seq<Seq<char>>>,
) -> StepOutcome {
    match decoded {
        Some(urls) => architect_begin_testing(AgentModel { candidates: urls, ..agent }),
        None => agent.fail(AgentError::UndecodableModelOutput),
    }
}

/// An architect in `UnitTesting` gets the statuses of its candidates: it asks
/// for the reachable ones to be written into the shared record.
pub open spec fn architect_accept_statuses(
    agent: AgentModel,
    statuses: Seq<Option<u16>>,
) -> StepOutcome {
    if statuses.len() == agent.candidates.len() {
        agent.ask(
            AgentState::UnitTesting,
            Pending::StoreAck,
            AgentActionView::Store(
                SpecUpdateView::ExternalUrls(reachable(agent.candidates, statuses)),
            ),
        )
    } else {
        agent.fail(AgentError::UnexpectedEvent)
    }
}

/// An architect learns that the scope was written: it reads the scope back and
/// goes on to `Working` where outside URLs are needed, else it is done.
pub open spec fn architect_after_scope(agent: AgentModel, spec: ProjectSpecView) -> StepOutcome {
    match spec.project_scope {
        Some(scope) => if scope.is_external_urls_required {
            architect_begin_working(agent, spec)
        } else {
            agent.finish()
        },
        None => agent.fail(AgentError::UnexpectedEvent),
    }
}

/// One step of an architect.
pub open spec fn architect_step(
    agent: AgentModel,
    spec: ProjectSpecView,
    event: AgentEventView,
) -> StepOutcome {
    match agent.state {
        AgentState::Completed => agent.stay_finished(),
        AgentState::Discovery => match (agent.pending, event) {
            (Pending::Idle, AgentEventView::Begin) => agent.ask(
                AgentState::Discovery,
                Pending::ModelReply,
                AgentActionView::InvokeModel(
                    scope_request(debug_rendering(spec.project_description)),
                ),
            ),
            (Pending::ModelReply, AgentEventView::ModelScope(scope)) => agent.ask(
                AgentState::Discovery,
                Pending::StoreAck,
                AgentActionView::Store(SpecUpdateView::ProjectScope(scope)),
            ),
            (Pending::StoreAck, AgentEventView::Stored) => architect_after_scope(agent, spec),
            _ => agent.fail(AgentError::UnexpectedEvent),
        },
        AgentState::Working => match (agent.pending, event) {
            (Pending::Idle, AgentEventView::Begin) => architect_begin_working(agent, spec),
            (Pending::ModelReply, AgentEventView::ModelText(text)) => architect_accept_candidates(
                agent,
                decoded_string_list(text),
            ),
            _ => agent.fail(AgentError::UnexpectedEvent),
        },
        AgentState::UnitTesting => match (agent.pending, event) {
            (Pending::Idle, AgentEventView::Begin) => architect_begin_testing(agent),
            (
                Pending::ProbeResults,
                AgentEventView::ProbeStatuses(statuses),
            ) => architect_accept_statuses(agent, statuses),
            (Pending::StoreAck, AgentEventView::Stored) => agent.finish(),
            _ => agent.fail(AgentError::UnexpectedEvent),
        },
    }
}

/// A backend agent gets the template: it asks the model for the source.
pub open spec fn backend_accept_template(
    agent: AgentModel,
    spec: ProjectSpecView,
    user: UserInputsView,
    template: Seq<char>,
) -> StepOutcome {
    match chosen_backend_language(user) {
        None => agent.fail(AgentError::MissingBackendLanguage),
        Some(language) => match spec.project_description {
            None => agent.fail(AgentError::MissingProjectDescription),
            Some(description) => agent.ask(
                AgentState::Discovery,
                Pending::ModelReply,
                AgentActionView::InvokeModel(backend_request(template, description, language)),
            ),
        },
    }
}

/// A backend agent gets the source: it keeps it as its draft and asks for it
/// to be written into the shared record. Nothing is saved anywhere before
/// that write has gone through.
pub open spec fn backend_accept_code(
    agent: AgentModel,
    user: UserInputsView,
    code: Seq<char>,
) -> StepOutcome {
    match chosen_backend_language(user) {
        None => agent.fail(AgentError::MissingBackendLanguage),
        Some(_) => AgentModel { draft: code, ..agent }.ask(
            AgentState::Discovery,
            Pending::StoreAck,
            AgentActionView::Store(SpecUpdateView::BackendCode(code)),
        ),
    }
}

/// A backend agent learns that its draft was written into the shared record:
/// it asks for the draft to be saved as the generated source.
pub open spec fn backend_after_store(agent: AgentModel, user: UserInputsView) -> StepOutcome {
    match chosen_backend_language(user) {
        None => agent.fail(AgentError::MissingBackendLanguage),
        Some(language) => agent.ask(
            AgentState::Discovery,
            Pending::CodeWrite,
            AgentActionView::WriteGeneratedCode { contents: agent.draft, language },
        ),
    }
}

/// One step of a backend agent.
pub open spec fn backend_step(
    agent: AgentModel,
    spec: ProjectSpecView,
    user: UserInputsView,
    event: AgentEventView,
) -> StepOutcome {
    match agent.state {
        AgentState::Completed => agent.stay_finished(),
        AgentState::Working | AgentState::UnitTesting => agent.finish(),
        AgentState::Discovery => match (agent.pending, event) {
            (Pending::Idle, AgentEventView::Begin) => match chosen_backend_language(user) {
                None => agent.fail(AgentError::MissingBackendLanguage),
                Some(language) => agent.ask(
                    AgentState::Discovery,
                    Pending::TemplateContents,
                    AgentActionView::ReadTemplate(language),
                ),
            },
            (
                Pending::TemplateContents,
                AgentEventView::TemplateContents(template),
            ) => backend_accept_template(agent, spec, user, template),
            (Pending::ModelReply, AgentEventView::ModelText(code)) => backend_accept_code(
                agent,
                user,
                code,
            ),
            (Pending::StoreAck, AgentEventView::Stored) => backend_after_store(agent, user),
            (Pending::CodeWrite, AgentEventView::CodeWritten) => agent.finish(),
            _ => agent.fail(AgentError::UnexpectedEvent),
        },
    }
}

/// One step of any agent: a failure that the event reports aborts the run,
/// and every other event is handled by the agent's kind.
pub open spec fn agent_step(
    agent: AgentModel,
    spec: ProjectSpecView,
    user: UserInputsView,
    event: AgentEventView,
) -> StepOutcome {
    if agent.state != AgentState::Completed && reported_failure(agent.pending, event) is Some {
        agent.fail(reported_failure(agent.pending, event).unwrap())
    } else {
        match agent.kind {
            AgentKind::Manager => manager_step(agent, user, event),
            AgentKind::Architect => architect_step(agent, spec, event),
            AgentKind::Backend => backend_step(agent, spec, user, event),
        }
    }
}

/// The agent after it has taken one step for each stimulus, first to last, or
/// `None` where one of the steps aborted the run.
pub open spec fn agent_run(
    agent: AgentModel,
    user: UserInputsView,
    stimuli: Seq<Stimulus>,
) -> Option<AgentModel>
    decreases stimuli.len(),
{
    if stimuli.len() == 0 {
        Some(agent)
    } else {
        let outcome = agent_step(agent, stimuli[0].spec, user, stimuli[0].event);
        if outcome.result is Ok {
            agent_run(outcome.next, user, stimuli.skip(1))
        } else {
            None
        }
    }
}

/// A step never changes the kind of an agent, never takes it back to an
/// earlier phase, and, unless it aborts the run, brings an agent that is not
/// `Completed` strictly closer to `Completed`. It answers `Finished` exactly
/// when it leaves the agent `Completed`, and an aborting step changes nothing.
pub proof fn lemma_step_makes_progress(
    agent: AgentModel,
    spec: ProjectSpecView,
    user: UserInputsView,
    event: AgentEventView,
)
    ensures
        ({
            let outcome = agent_step(agent, spec, user, event);
            &&& outcome.next.kind == agent.kind
            &&& outcome.next.state.rank() <= agent.state.rank()
            &&& outcome.result is Err ==> outcome.next == agent
            &&& outcome.result is Ok && agent.state != AgentState::Completed
                ==> outcome.next.steps_left() < agent.steps_left()
            &&& outcome.result == Ok::<AgentActionView, AgentError>(AgentActionView::Finished)
                <==> outcome.result is Ok && outcome.next.state == AgentState::Completed
            &&& agent.state == AgentState::Completed ==> outcome == agent.stay_finished()
        }),
{
}

/// Every agent's loop ends: an agent that takes at least as many steps as
/// [`AgentModel::steps_left`] allows it, none of which aborts the run, is
/// `Completed` afterwards. For an agent that has not started that bound is 23,
/// whatever the events are.
pub proof fn lemma_agent_terminates(
    agent: AgentModel,
    user: UserInputsView,
    stimuli: Seq<Stimulus>,
)
    requires
        stimuli.len() >= agent.steps_left(),
    ensures
        AgentModel::fresh(agent.kind).steps_left() == 23,
        agent_run(agent, user, stimuli) matches Some(last) ==> last.state
            == AgentState::Completed && last.kind == agent.kind,
    decreases stimuli.len(),
{
    if stimuli.len() > 0 {
        let outcome = agent_step(agent, stimuli[0].spec, user, stimuli[0].event);
        lemma_step_makes_progress(agent, stimuli[0].spec, user, stimuli[0].event);
        if outcome.result is Ok {
            lemma_agent_terminates(outcome.next, user, stimuli.skip(1));
        }
    }
}

/// Every field of the shared record has at most one kind of agent that writes it.
pub proof fn lemma_one_writer_per_field(first: AgentKind, second: AgentKind, field: SpecField)
    requires
        first.writes(field),
        second.writes(field),
    ensures
        first == second,
{
}

/// An agent only ever asks for a write to a field that its kind is the writer of.
pub proof fn lemma_agent_writes_own_fields(
    agent: AgentModel,
    spec: ProjectSpecView,
    user: UserInputsView,
    event: AgentEventView,
)
    ensures
        agent_step(agent, spec, user, event).result matches Ok(AgentActionView::Store(update))
            ==> agent.kind.writes(update.field()),
{
}

/// Without a backend language a backend agent asks for nothing, whatever state
/// it is in: a step either aborts the run or finds the agent with no work
/// left. So no template is read, the model is not called, and neither the
/// shared record nor the generated source is written.
pub proof fn lemma_backend_needs_language(
    agent: AgentModel,
    spec: ProjectSpecView,
    user: UserInputsView,
    event: AgentEventView,
)
    requires
        agent.kind == AgentKind::Backend,
        chosen_backend_language(user) is None,
    ensures
        ({
            let result = agent_step(agent, spec, user, event).result;
            &&& result is Err || result == Ok::<AgentActionView, AgentError>(
                AgentActionView::Finished,
            )
            &&& agent.state == AgentState::Discovery && agent.pending != Pending::CodeWrite
                ==> result is Err
            &&& agent.state == AgentState::Discovery && agent.pending == Pending::Idle && event
                == AgentEventView::Begin ==> result == Err::<AgentActionView, AgentError>(
                AgentError::MissingBackendLanguage,
            )
        }),
{
}

/// A backend agent that has not started never starts without a backend
/// language: its first step aborts the run, whatever the event is, so no run
/// of it gets anywhere.
pub proof fn lemma_backend_without_language_aborts(
    user: UserInputsView,
    stimuli: Seq<Stimulus>,
)
    requires
        chosen_backend_language(user) is None,
        stimuli.len() > 0,
    ensures
        agent_run(AgentModel::fresh(AgentKind::Backend), user, stimuli) is None,
{
    lemma_backend_needs_language(
        AgentModel::fresh(AgentKind::Backend),
        stimuli[0].spec,
        user,
        stimuli[0].event,
    );
}

/// A refused write leaves nothing behind. A backend agent asks for the
/// generated source to be saved only in answer to `Stored`, that is after its
/// write into the shared record has gone through, and what it asks to be saved
/// is its draft. A refusal of that write aborts the run with the agent as it
/// was.
pub proof fn lemma_backend_saves_after_storing(
    agent: AgentModel,
    spec: ProjectSpecView,
    user: UserInputsView,
    event: AgentEventView,
)
    requires
        agent.kind == AgentKind::Backend,
    ensures
        agent_step(agent, spec, user, event).result matches Ok(
            AgentActionView::WriteGeneratedCode { contents, language },
        ) ==> event == AgentEventView::Stored && agent.pending == Pending::StoreAck && contents
            == agent.draft && chosen_backend_language(user) == Some(language),
        agent.pending == Pending::StoreAck && event == AgentEventView::WriteRefused && agent.state
            != AgentState::Completed ==> agent_step(agent, spec, user, event) == agent.fail(
            AgentError::WriteAccessUnavailable,
        ),
{
}

/// Validation keeps candidates in the order they came in and keeps exactly those
/// with the reachable status: the candidate at each position of the result
/// stands, with that status, at a position of the input, and these positions
/// increase.
pub proof fn lemma_reachable_is_ordered_selection(
    candidates: Seq<Seq<char>>,
    statuses: Seq<Option<u16>>,
) -> (positions: Seq<int>)
    ensures
        positions.len() == reachable(candidates, statuses).len(),
        forall|k: int|
            0 <= k < positions.len() ==> 0 <= #[trigger] positions[k] < candidates.len()
                && positions[k] < statuses.len() && statuses[positions[k]] == Some(
                REACHABLE_STATUS,
            ) && reachable(candidates, statuses)[k] == candidates[positions[k]],
        forall|k: int, l: int| 0 <= k < l < positions.len() ==> positions[k] < positions[l],
        forall|i: int|
            0 <= i < candidates.len() && i < statuses.len() && statuses[i] == Some(
                REACHABLE_STATUS,
            ) ==> positions.contains(i),
    decreases candidates.len(),
{
    if candidates.len() == 0 {
        Seq::empty()
    } else {
        let earlier = lemma_reachable_is_ordered_selection(candidates.drop_last(), statuses);
        let last = candidates.len() - 1;
        if last < statuses.len() && statuses[last] == Some(REACHABLE_STATUS) {
            let positions = earlier.push(last);
            assert forall|i: int|
                0 <= i < candidates.len() && i < statuses.len() && statuses[i] == Some(
                    REACHABLE_STATUS,
                ) implies positions.contains(i) by {
                if i < last {
                    assert(earlier.contains(i));
                    let k = choose|k: int| 0 <= k < earlier.len() && earlier[k] == i;
                    assert(positions[k] == i);
                } else {
                    assert(positions[earlier.len() as int] == i);
                }
            }
            positions
        } else {
            assert forall|i: int|
                0 <= i < candidates.len() && i < statuses.len() && statuses[i] == Some(
                    REACHABLE_STATUS,
                ) implies earlier.contains(i) by {
                assert(i < last);
            }
            earlier
        }
    }
}

} // verus!
