//! The protocol between an agent and whoever drives it. The agent answers
//! each event with the next outside action; the driver performs the action and
//! comes back with the event that reports its outcome.

use crate::agents::base::{AgentKind, AgentState};
use crate::models::project::{ProjectScope, SpecUpdate, SpecUpdateView};
use crate::utils::llm_requests::{ModelRequest, ModelRequestView};
use vstd::prelude::*;

verus! {

/// The status that marks a probed URL as reachable.
pub const REACHABLE_STATUS: u16 = 200;

/// The seconds after which a probe is given up and its URL counts as unreachable.
pub const PROBE_TIMEOUT_SECONDS: u64 = 5;

/// What an agent asks its driver to do next.
#[derive(Debug, Clone, PartialEq, Eq)]
pub enum AgentAction {
    /// Send the request to the model and come back with its reply.
    InvokeModel(ModelRequest),
    /// Probe each URL, in this order, and come back with one status per URL.
    ProbeUrls(Vec<String>),
    /// Load the code template for the language.
    ReadTemplate(String),
    /// Save the generated source. An agent asks for this only after the source
    /// has been written into the shared record.
    WriteGeneratedCode { contents: String, language: String },
    /// Try, without waiting, to get exclusive access to the shared record and
    /// write the update into it.
    Store(SpecUpdate),
    /// Nothing: the agent has reached `Completed`.
    Finished,
}

/// Mathematical value of an [`AgentAction`].
pub enum AgentActionView {
    InvokeModel(ModelRequestView),
    ProbeUrls(Seq<Seq<char>>),
    ReadTemplate(Seq<char>),
    WriteGeneratedCode { contents: Seq<char>, language: Seq<char> },
    Store(SpecUpdateView),
    Finished,
}

impl View for AgentAction {
    type V = AgentActionView;

    open spec fn view(&self) -> AgentActionView {
        match self {
            AgentAction::InvokeModel(request) => AgentActionView::InvokeModel(request@),
            AgentAction::ProbeUrls(urls) => AgentActionView::ProbeUrls(urls.deep_view()),
            AgentAction::ReadTemplate(language) => AgentActionView::ReadTemplate(language@),
            AgentAction::WriteGeneratedCode { contents, language } => {
                AgentActionView::WriteGeneratedCode { contents: contents@, language: language@ }
            },
            AgentAction::Store(update) => AgentActionView::Store(update@),
            AgentAction::Finished => AgentActionView::Finished,
        }
    }
}

/// What the driver reports to an agent.
#[derive(Debug, Clone, PartialEq, Eq)]
pub enum AgentEvent {
    /// The agent's turn begins; no action is outstanding.
    Begin,
    /// The model replied with this text.
    ModelText(String),
    /// The model replied, and the reply decoded into this scope.
    ModelScope(ProjectScope),
    /// The model replied, and the reply did not decode into the shape asked for.
    ModelUndecodable,
    /// The model could not be reached.
    ModelUnreachable,
    /// One entry per probed URL, in the order of the request: the status that
    /// came back, or `None` where none came back in time.
    ProbeStatuses(Vec<Option<u16>>),
    /// The template that was loaded.
    TemplateContents(String),
    /// The generated source has been saved.
    CodeWritten,
    /// The update has been written into the shared record.
    Stored,
    /// Exclusive access to the shared record was not available at once.
    WriteRefused,
}

/// Mathematical value of an [`AgentEvent`].
pub enum AgentEventView {
    Begin,
    ModelText(Seq<char>),
    ModelScope(ProjectScope),
    ModelUndecodable,
    ModelUnreachable,
    ProbeStatuses(Seq<Option<u16>>),
    TemplateContents(Seq<char>),
    CodeWritten,
    Stored,
    WriteRefused,
}

impl View for AgentEvent {
    type V = AgentEventView;

    open spec fn view(&self) -> AgentEventView {
        match self {
            AgentEvent::Begin => AgentEventView::Begin,
            AgentEvent::ModelText(text) => AgentEventView::ModelText(text@),
            AgentEvent::ModelScope(scope) => AgentEventView::ModelScope(*scope),
            AgentEvent::ModelUndecodable => AgentEventView::ModelUndecodable,
            AgentEvent::ModelUnreachable => AgentEventView::ModelUnreachable,
            AgentEvent::ProbeStatuses(statuses) => AgentEventView::ProbeStatuses(statuses@),
            AgentEvent::TemplateContents(text) => AgentEventView::TemplateContents(text@),
            AgentEvent::CodeWritten => AgentEventView::CodeWritten,
            AgentEvent::Stored => AgentEventView::Stored,
            AgentEvent::WriteRefused => AgentEventView::WriteRefused,
        }
    }
}

/// Why a run is aborted. None of these is retried.
#[derive(Debug, Clone, Copy, PartialEq, Eq, Structural)]
pub enum AgentError {
    /// The operator selected no backend language.
    MissingBackendLanguage,
    /// The shared record holds no project description where one is needed.
    MissingProjectDescription,
    /// Exclusive access to the shared record was not available at once.
    WriteAccessUnavailable,
    /// A model reply did not decode into the shape asked for.
    UndecodableModelOutput,
    /// The model could not be reached.
    ModelUnreachable,
    /// The event reports on an action that the agent did not ask for.
    UnexpectedEvent,
}

impl AgentError {
    /// The failure in words.
    pub open spec fn reason(self) -> Seq<char> {
        match self {
            AgentError::MissingBackendLanguage => "No language was selected. Exiting program"@,
            AgentError::MissingProjectDescription => "Project description not found"@,
            AgentError::WriteAccessUnavailable => "Failed to acquire write lock on project_spec"@,
            AgentError::UndecodableModelOutput => "Could not deserialize LLM response"@,
            AgentError::ModelUnreachable => "Error occurred when calling LLM service"@,
            AgentError::UnexpectedEvent => "Received a report on an action that was not asked for"@,
        }
    }

    /// The failure in words.
    pub fn describe(self) -> (text: &'static str)
        ensures
            text@ == self.reason(),
    {
        match self {
            AgentError::MissingBackendLanguage => "No language was selected. Exiting program",
            AgentError::MissingProjectDescription => "Project description not found",
            AgentError::WriteAccessUnavailable => "Failed to acquire write lock on project_spec",
            AgentError::UndecodableModelOutput => "Could not deserialize LLM response",
            AgentError::ModelUnreachable => "Error occurred when calling LLM service",
            AgentError::UnexpectedEvent => "Received a report on an action that was not asked for",
        }
    }
}

/// The failure of an agent of `kind` that aborted the run in `state`, in
/// words. A refused write is named after what the agent was about to write;
/// every other failure reads the same for all agents.
pub open spec fn failure_reason(kind: AgentKind, state: AgentState, error: AgentError) -> Seq<
    char,
> {
    match error {
        AgentError::WriteAccessUnavailable => match kind {
            AgentKind::Manager => "Failed to acquire write lock on project_spec"@,
            AgentKind::Architect => if state == AgentState::Discovery {
                "Unable to write project scope to Project Spec"@
            } else {
                "Unable to write external urls to Project Spec"@
            },
            AgentKind::Backend => "Failed to generate backend code"@,
        },
        _ => error.reason(),
    }
}

/// The failure of an agent of `kind` that aborted the run in `state`, in words.
pub fn explain_failure(kind: AgentKind, state: AgentState, error: AgentError) -> (text:
    &'static str)
    ensures
        text@ == failure_reason(kind, state, error),
{
    match error {
        AgentError::WriteAccessUnavailable => match kind {
            AgentKind::Manager => "Failed to acquire write lock on project_spec",
            AgentKind::Architect => match state {
                AgentState::Discovery => "Unable to write project scope to Project Spec",
                _ => "Unable to write external urls to Project Spec",
            },
            AgentKind::Backend => "Failed to generate backend code",
        },
        _ => error.describe(),
    }
}

/// The line that tells the operator which role aborted the run, and why:
/// the role's label, then the failure of an agent of `kind` in `state`.
pub fn fatal_diagnostic(
    position: &str,
    kind: AgentKind,
    state: AgentState,
    error: AgentError,
) -> (line: String)
    ensures
        line@ == position@ + ": "@ + failure_reason(kind, state, error),
{
    let mut line = String::from_str(position);
    line.append(": ");
    line.append(explain_failure(kind, state, error));
    line
}

/// What an agent is waiting for.
#[derive(Debug, Clone, Copy, PartialEq, Eq, Structural)]
pub enum Pending {
    /// Nothing: no action is outstanding.
    Idle,
    /// The contents of a template.
    TemplateContents,
    /// A reply of the model.
    ModelReply,
    /// The statuses of probed URLs.
    ProbeResults,
    /// The confirmation that generated source was saved.
    CodeWrite,
    /// The confirmation that an update was written into the shared record.
    StoreAck,
}

impl Pending {
    /// How many more events an agent can take in its current phase, at most.
    pub open spec fn rank(self) -> nat {
        match self {
            Pending::Idle => 5,
            Pending::TemplateContents => 4,
            Pending::ModelReply => 3,
            Pending::ProbeResults => 3,
            Pending::StoreAck => 2,
            Pending::CodeWrite => 1,
        }
    }
}

/// The error that an event brings with it, whatever the agent: a failed model
/// call while a reply is awaited, a refused write while a write is awaited.
pub open spec fn reported_failure(pending: Pending, event: AgentEventView) -> Option<AgentError> {
    match (pending, event) {
        (Pending::ModelReply, AgentEventView::ModelUnreachable) => Some(
            AgentError::ModelUnreachable,
        ),
        (Pending::ModelReply, AgentEventView::ModelUndecodable) => Some(
            AgentError::UndecodableModelOutput,
        ),
        (Pending::StoreAck, AgentEventView::WriteRefused) => Some(
            AgentError::WriteAccessUnavailable,
        ),
        _ => None,
    }
}

/// Tells whether `event` reports a failure of the action that `pending` waits for.
pub fn report_failure(pending: Pending, event: &AgentEvent) -> (failure: Option<AgentError>)
    ensures
        failure == reported_failure(pending, event@),
{
    match (pending, event) {
        (Pending::ModelReply, AgentEvent::ModelUnreachable) => Some(AgentError::ModelUnreachable),
        (Pending::ModelReply, AgentEvent::ModelUndecodable) => Some(
            AgentError::UndecodableModelOutput,
        ),
        (Pending::StoreAck, AgentEvent::WriteRefused) => Some(AgentError::WriteAccessUnavailable),
        _ => None,
    }
}

/// Mathematical value of what a step hands back.
pub open spec fn result_view(result: Result<AgentAction, AgentError>) -> Result<
    AgentActionView,
    AgentError,
> {
    match result {
        Ok(action) => Ok(action@),
        Err(error) => Err(error),
    }
}

} // verus!
