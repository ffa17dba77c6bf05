//! The workflow: an ordered list of agents that take their turns one after
//! another, each to completion, against one shared record.

use crate::agents::agent_traits::AsyncExecuteFunctions;
use crate::agents::architect_agent::ArchitectAgent;
use crate::agents::backend_agent::BackendAgent;
use crate::agents::base::{AgentAttributes, AgentState};
use crate::agents::manager_agent::ManagerAgent;
use crate::agents::model::{
    agent_step,
    lemma_agent_writes_own_fields,
    lemma_step_makes_progress,
    AgentModel,
};
use crate::agents::protocol::{
    result_view,
    AgentAction,
    AgentActionView,
    AgentError,
    AgentEvent,
    AgentEventView,
};
use crate::models::project::{
    lemma_writes_persist,
    ProjectSpec,
    ProjectSpecView,
    SpecUpdateView,
    UserInputs,
    UserInputsView,
};
use vstd::prelude::*;

verus! {

/// Any of the agents that a workflow can run.
#[derive(Debug)]
pub enum Agent {
    Manager(ManagerAgent),
    Architect(ArchitectAgent),
    Backend(BackendAgent),
}

impl Agent {
    /// The attributes of the agent, whatever its kind.
    pub open spec fn attributes(self) -> AgentAttributes {
        match self {
            Agent::Manager(agent) => agent.attributes,
            Agent::Architect(agent) => agent.attributes,
            Agent::Backend(agent) => agent.attributes,
        }
    }

    /// Whether the agent is `before` at a later point of its workflow: of the
    /// same kind, with the same objective, position and messages and, for a
    /// backend developer, the same count of bugs.
    pub open spec fn continues(self, before: Agent) -> bool {
        &&& self.attributes().objective == before.attributes().objective
        &&& self.attributes().position == before.attributes().position
        &&& self.attributes().messages == before.attributes().messages
        &&& match (before, self) {
            (Agent::Manager(_), Agent::Manager(_)) => true,
            (Agent::Architect(_), Agent::Architect(_)) => true,
            (Agent::Backend(earlier), Agent::Backend(later)) => later.bug_counts
                == earlier.bug_counts,
            _ => false,
        }
    }
}

impl AsyncExecuteFunctions for Agent {
    open spec fn model(&self) -> AgentModel {
        match self {
            Agent::Manager(agent) => agent.model(),
            Agent::Architect(agent) => agent.model(),
            Agent::Backend(agent) => agent.model(),
        }
    }

    fn execute_workflow(
        &mut self,
        project_spec: &ProjectSpec,
        user_input: &UserInputs,
        event: AgentEvent,
    ) -> (result: Result<AgentAction, AgentError>)
        ensures
            final(self).continues(*old(self)),
    {
        match self {
            Agent::Manager(agent) => agent.execute_workflow(project_spec, user_input, event),
            Agent::Architect(agent) => agent.execute_workflow(project_spec, user_input, event),
            Agent::Backend(agent) => agent.execute_workflow(project_spec, user_input, event),
        }
    }
}

/// A workflow as a state machine.
pub struct WorkflowModel {
    /// The agents in the order of their turns.
    pub agents: Seq<AgentModel>,
    /// The position of the agent whose turn it is; the number of agents once
    /// all have had their turn.
    pub current: nat,
    /// The error that aborted the run, if one did.
    pub failure: Option<AgentError>,
}

/// What one step of a workflow leads to.
pub struct WorkflowOutcome {
    pub next: WorkflowModel,
    pub result: Result<AgentActionView, AgentError>,
}

impl WorkflowModel {
    /// Every agent whose turn is over is `Completed`.
    pub open spec fn in_order(self) -> bool {
        &&& self.current <= self.agents.len()
        &&& forall|i: int| 0 <= i < self.current ==> (#[trigger] self.agents[i]).state
            == AgentState::Completed
    }
}

/// One step of a workflow. After an abort every step reports the same error
/// and changes nothing. Otherwise the event goes to the agent whose turn it
/// is; when that agent is `Completed` the turn passes to the next agent, which
/// begins at once, and when no agent is left the workflow is `Finished`.
pub open spec fn workflow_step(
    workflow: WorkflowModel,
    spec: ProjectSpecView,
    user: UserInputsView,
    event: AgentEventView,
) -> WorkflowOutcome
    decreases workflow.agents.len() - workflow.current,
{
    if workflow.failure is Some {
        WorkflowOutcome { next: workflow, result: Err(workflow.failure.unwrap()) }
    } else if workflow.current >= workflow.agents.len() {
        WorkflowOutcome { next: workflow, result: Ok(AgentActionView::Finished) }
    } else {
        let outcome = agent_step(workflow.agents[workflow.current as int], spec, user, event);
        let agents = workflow.agents.update(workflow.current as int, outcome.next);
        match outcome.result {
            Err(error) => WorkflowOutcome {
                next: WorkflowModel { failure: Some(error), ..workflow },
                result: Err(error),
            },
            Ok(AgentActionView::Finished) => workflow_step(
                WorkflowModel { agents, current: workflow.current + 1, failure: None },
                spec,
                user,
                AgentEventView::Begin,
            ),
            Ok(action) => WorkflowOutcome {
                next: WorkflowModel { agents, ..workflow },
                result: Ok(action),
            },
        }
    }
}

/// Turns are taken in order. A step of a workflow never moves the turn back
/// and keeps the number of agents. It leaves alone every agent whose turn was
/// over before the step and every agent whose turn has not come after it, and
/// every agent whose turn is over after the step is `Completed`: no agent
/// begins before all agents in front of it have completed.
pub proof fn lemma_turns_in_order(
    workflow: WorkflowModel,
    spec: ProjectSpecView,
    user: UserInputsView,
    event: AgentEventView,
)
    requires
        workflow.in_order(),
    ensures
        ({
            let next = workflow_step(workflow, spec, user, event).next;
            &&& next.in_order()
            &&& next.current >= workflow.current
            &&& next.agents.len() == workflow.agents.len()
            &&& forall|i: int|
                0 <= i < workflow.current ==> #[trigger] next.agents[i] == workflow.agents[i]
            &&& forall|i: int|
                next.current < i < next.agents.len() ==> #[trigger] next.agents[i]
                    == workflow.agents[i]
        }),
    decreases workflow.agents.len() - workflow.current,
{
    if workflow.failure is None && workflow.current < workflow.agents.len() {
        let agent = workflow.agents[workflow.current as int];
        let outcome = agent_step(agent, spec, user, event);
        lemma_step_makes_progress(agent, spec, user, event);
        let agents = workflow.agents.update(workflow.current as int, outcome.next);
        if outcome.result == Ok::<AgentActionView, AgentError>(AgentActionView::Finished) {
            let passed = WorkflowModel { agents, current: workflow.current + 1, failure: None };
            assert(passed.in_order());
            lemma_turns_in_order(passed, spec, user, AgentEventView::Begin);
        }
    }
}

/// Only the agent whose turn it is asks for a write, and only to a field that
/// its kind is the writer of: whenever a step of a workflow answers with a
/// write, the turn is then with an agent whose kind writes the field.
pub proof fn lemma_writes_come_from_the_writer_in_turn(
    workflow: WorkflowModel,
    spec: ProjectSpecView,
    user: UserInputsView,
    event: AgentEventView,
)
    ensures
        ({
            let outcome = workflow_step(workflow, spec, user, event);
            let next = outcome.next;
            outcome.result matches Ok(AgentActionView::Store(update)) ==> next.current
                < next.agents.len() && next.agents[next.current as int].kind.writes(
                update.field(),
            )
        }),
    decreases workflow.agents.len() - workflow.current,
{
    if workflow.failure is None && workflow.current < workflow.agents.len() {
        let agent = workflow.agents[workflow.current as int];
        let outcome = agent_step(agent, spec, user, event);
        lemma_step_makes_progress(agent, spec, user, event);
        lemma_agent_writes_own_fields(agent, spec, user, event);
        let agents = workflow.agents.update(workflow.current as int, outcome.next);
        if outcome.result == Ok::<AgentActionView, AgentError>(AgentActionView::Finished) {
            lemma_writes_come_from_the_writer_in_turn(
                WorkflowModel { agents, current: workflow.current + 1, failure: None },
                spec,
                user,
                AgentEventView::Begin,
            );
        }
    }
}

/// An upper bound on the number of steps that the agents from position `from`
/// on can still take, one more for each agent for the passing of the turn.
pub open spec fn steps_left_from(agents: Seq<AgentModel>, from: nat) -> nat
    decreases agents.len() - from,
{
    if from >= agents.len() {
        0
    } else {
        agents[from as int].steps_left() + 1 + steps_left_from(agents, from + 1)
    }
}

/// The bound of [`steps_left_from`] does not depend on the agents in front of `from`.
proof fn lemma_steps_left_ignores_earlier_agents(
    agents: Seq<AgentModel>,
    position: int,
    agent: AgentModel,
    from: nat,
)
    requires
        0 <= position < from,
        position < agents.len(),
    ensures
        steps_left_from(agents.update(position, agent), from) == steps_left_from(agents, from),
    decreases agents.len() - from,
{
    if from < agents.len() {
        lemma_steps_left_ignores_earlier_agents(agents, position, agent, from + 1);
    }
}

/// The pipeline ends: a step of a workflow that neither aborts the run nor
/// finds every agent completed already brings the workflow strictly closer to
/// its end, and a workflow answers `Finished` exactly when no agent is left.
pub proof fn lemma_workflow_makes_progress(
    workflow: WorkflowModel,
    spec: ProjectSpecView,
    user: UserInputsView,
    event: AgentEventView,
)
    requires
        workflow.current <= workflow.agents.len(),
    ensures
        ({
            let outcome = workflow_step(workflow, spec, user, event);
            &&& outcome.result is Ok && workflow.current < workflow.agents.len()
                ==> steps_left_from(outcome.next.agents, outcome.next.current) < steps_left_from(
                workflow.agents,
                workflow.current,
            )
            &&& outcome.result == Ok::<AgentActionView, AgentError>(AgentActionView::Finished)
                <==> outcome.result is Ok && outcome.next.current == outcome.next.agents.len()
        }),
    decreases workflow.agents.len() - workflow.current,
{
    if workflow.failure is None && workflow.current < workflow.agents.len() {
        let agent = workflow.agents[workflow.current as int];
        let outcome = agent_step(agent, spec, user, event);
        lemma_step_makes_progress(agent, spec, user, event);
        let agents = workflow.agents.update(workflow.current as int, outcome.next);
        lemma_steps_left_ignores_earlier_agents(
            workflow.agents,
            workflow.current as int,
            outcome.next,
            workflow.current + 1,
        );
        if outcome.result == Ok::<AgentActionView, AgentError>(AgentActionView::Finished) {
            lemma_workflow_makes_progress(
                WorkflowModel { agents, current: workflow.current + 1, failure: None },
                spec,
                user,
                AgentEventView::Begin,
            );
        }
    }
}

/// A failure stops the pipeline: the step in which an agent aborts records the
/// error, and from then on every step reports that error and changes nothing.
pub proof fn lemma_failure_stops_the_run(
    workflow: WorkflowModel,
    spec: ProjectSpecView,
    user: UserInputsView,
    event: AgentEventView,
    later_spec: ProjectSpecView,
    later_event: AgentEventView,
)
    ensures
        ({
            let outcome = workflow_step(workflow, spec, user, event);
            outcome.result matches Err(error) ==> outcome.next.failure == Some(error)
                && workflow_step(outcome.next, later_spec, user, later_event) == (WorkflowOutcome {
                next: outcome.next,
                result: Err(error),
            })
        }),
    decreases workflow.agents.len() - workflow.current,
{
    if workflow.failure is None && workflow.current < workflow.agents.len() {
        let outcome = agent_step(workflow.agents[workflow.current as int], spec, user, event);
        let agents = workflow.agents.update(workflow.current as int, outcome.next);
        if outcome.result == Ok::<AgentActionView, AgentError>(AgentActionView::Finished) {
            lemma_failure_stops_the_run(
                WorkflowModel { agents, current: workflow.current + 1, failure: None },
                spec,
                user,
                AgentEventView::Begin,
                later_spec,
                later_event,
            );
        }
    }
}

/// A run as a driver conducts it that makes each write when it reports it:
/// the workflow, the shared record, and the writes made so far.
pub struct DrivenRun {
    pub workflow: WorkflowModel,
    pub record: ProjectSpecView,
    /// The write that the workflow asked for in its last step, if it did.
    pub asked: Option<SpecUpdateView>,
    /// The writes that were made, first to last.
    pub writes: Seq<SpecUpdateView>,
}

impl DrivenRun {
    /// The run before its first step.
    pub open spec fn start(workflow: WorkflowModel, record: ProjectSpecView) -> DrivenRun {
        DrivenRun { workflow, record, asked: None, writes: Seq::empty() }
    }

    /// One round of the run. Where the driver reports `Stored` for the write
    /// that was asked for, the write is in the record before the workflow
    /// takes its step, and the step reads the record with the write in it.
    pub open spec fn step(self, user: UserInputsView, event: AgentEventView) -> DrivenRun {
        let made = event == AgentEventView::Stored && self.asked is Some;
        let record = if made {
            self.record.updated(self.asked.unwrap())
        } else {
            self.record
        };
        let writes = if made {
            self.writes.push(self.asked.unwrap())
        } else {
            self.writes
        };
        let outcome = workflow_step(self.workflow, record, user, event);
        DrivenRun {
            workflow: outcome.next,
            record,
            asked: match outcome.result {
                Ok(AgentActionView::Store(update)) => Some(update),
                _ => None,
            },
            writes,
        }
    }

    /// The run after one round for each event, first to last.
    pub open spec fn steps(self, user: UserInputsView, events: Seq<AgentEventView>) -> DrivenRun
        decreases events.len(),
    {
        if events.len() == 0 {
            self
        } else {
            self.steps(user, events.drop_last()).step(user, events.last())
        }
    }
}

impl DrivenRun {
    /// What holds at every point of a run that began with `record` and
    /// `workflow`: the shared record is the one of the start with every write
    /// made so far in it, the turns are in order and have not moved back, and
    /// an outstanding write comes from the agent in turn and goes to a field
    /// of its kind.
    pub open spec fn follows(self, workflow: WorkflowModel, record: ProjectSpecView) -> bool {
        &&& self.record == record.updated_by_all(self.writes)
        &&& self.workflow.in_order()
        &&& self.workflow.current >= workflow.current
        &&& self.asked matches Some(update) ==> self.workflow.current
            < self.workflow.agents.len()
            && self.workflow.agents[self.workflow.current as int].kind.writes(update.field())
    }
}

/// One round of a run keeps what [`DrivenRun::follows`] says.
proof fn lemma_round_follows(
    run: DrivenRun,
    workflow: WorkflowModel,
    record: ProjectSpecView,
    user: UserInputsView,
    event: AgentEventView,
)
    requires
        run.follows(workflow, record),
    ensures
        run.step(user, event).follows(workflow, record),
{
    let next = run.step(user, event);
    lemma_turns_in_order(run.workflow, next.record, user, event);
    lemma_writes_come_from_the_writer_in_turn(run.workflow, next.record, user, event);
    if next.writes != run.writes {
        assert(next.writes.drop_last() =~= run.writes);
    }
}

/// Later agents see what earlier agents wrote. At every point of a run the
/// shared record, which is what the agent in turn reads, is the record of the
/// start with every write made so far in it: it holds each write that no later
/// write to the same field replaced. The turn never moves back during the run,
/// and an outstanding write comes from the agent in turn and goes to a field of
/// its kind.
pub proof fn lemma_later_agents_see_earlier_writes(
    workflow: WorkflowModel,
    record: ProjectSpecView,
    user: UserInputsView,
    events: Seq<AgentEventView>,
)
    requires
        workflow.in_order(),
    ensures
        ({
            let run = DrivenRun::start(workflow, record).steps(user, events);
            &&& run.follows(workflow, record)
            &&& forall|i: int|
                0 <= i < run.writes.len() && (forall|j: int|
                    i < j < run.writes.len() ==> run.writes[j].field()
                        != #[trigger] run.writes[i].field()) ==> run.record.holds(run.writes[i])
        }),
    decreases events.len(),
{
    let run = DrivenRun::start(workflow, record).steps(user, events);
    if events.len() > 0 {
        let before = DrivenRun::start(workflow, record).steps(user, events.drop_last());
        lemma_later_agents_see_earlier_writes(workflow, record, user, events.drop_last());
        lemma_round_follows(before, workflow, record, user, events.last());
    }
    lemma_writes_persist(record, run.writes);
}

/// The agents of one run, in the order of their turns, with the operator's
/// choices.
#[derive(Debug)]
pub struct ProjectWorkflow {
    pub agents: Vec<Agent>,
    pub user_input: UserInputs,
    /// The position of the agent whose turn it is.
    pub current: usize,
    /// The error that aborted the run, if one did.
    pub failure: Option<AgentError>,
}

impl ProjectWorkflow {
    /// The workflow as a state machine.
    pub open spec fn model(&self) -> WorkflowModel {
        WorkflowModel {
            agents: Seq::new(self.agents@.len(), |i: int| self.agents@[i].model()),
            current: self.current as nat,
            failure: self.failure,
        }
    }

    /// Whether the workflow is `before` at a later point of the run: the same
    /// agents in the same order, each as [`Agent::continues`] says, those
    /// outside the turns from `before`'s to this one's untouched, and the same
    /// choices of the operator.
    pub open spec fn continues(self, before: ProjectWorkflow) -> bool {
        &&& self.user_input == before.user_input
        &&& self.agents@.len() == before.agents@.len()
        &&& forall|i: int|
            0 <= i < self.agents@.len() ==> (#[trigger] self.agents@[i]).continues(
                before.agents@[i],
            )
        &&& forall|i: int|
            0 <= i < self.agents@.len() && (i < before.current || i > self.current)
                ==> #[trigger] self.agents@[i] == before.agents@[i]
    }

    /// A workflow without agents.
    pub fn new(user_input: UserInputs) -> (workflow: Self)
        ensures
            workflow.agents@.len() == 0,
            workflow.user_input == user_input,
            workflow.current == 0,
            workflow.failure is None,
            workflow.model().in_order(),
    {
        ProjectWorkflow { agents: Vec::new(), user_input, current: 0, failure: None }
    }

    /// Puts `agent` at the end of the order of turns.
    pub fn add_agent(&mut self, agent: Agent)
        ensures
            final(self).agents@ == old(self).agents@.push(agent),
            final(self).user_input == old(self).user_input,
            final(self).current == old(self).current,
            final(self).failure == old(self).failure,
            final(self).model().agents == old(self).model().agents.push(agent.model()),
            old(self).model().in_order() ==> final(self).model().in_order(),
    {
        self.agents.push(agent);
        assert(self.model().agents =~= old(self).model().agents.push(agent.model()));
    }

    /// Starts the run: the first agent begins its turn.
    pub fn initiate_workflow(&mut self, project_spec: &ProjectSpec) -> (result: Result<
        AgentAction,
        AgentError,
    >)
        ensures
            final(self).model() == workflow_step(
                old(self).model(),
                project_spec@,
                old(self).user_input@,
                AgentEventView::Begin,
            ).next,
            result_view(result) == workflow_step(
                old(self).model(),
                project_spec@,
                old(self).user_input@,
                AgentEventView::Begin,
            ).result,
            final(self).continues(*old(self)),
    {
        self.resume_workflow(project_spec, AgentEvent::Begin)
    }

    /// Goes on with the run: `event` reports the outcome of the action that the
    /// workflow asked for last, and the answer is the next action. `Finished`
    /// says that every agent has completed; an `Err` aborts the run for good.
    pub fn resume_workflow(&mut self, project_spec: &ProjectSpec, event: AgentEvent) -> (result:
        Result<AgentAction, AgentError>)
        ensures
            final(self).model() == workflow_step(
                old(self).model(),
                project_spec@,
                old(self).user_input@,
                event@,
            ).next,
            result_view(result) == workflow_step(
                old(self).model(),
                project_spec@,
                old(self).user_input@,
                event@,
            ).result,
            final(self).continues(*old(self)),
    {
        if let Some(error) = self.failure {
            return Err(error);
        }
        let mut report = event;
        while self.current < self.agents.len()
            invariant
                self.failure is None,
                self.continues(*old(self)),
                self.current >= old(self).current,
                workflow_step(self.model(), project_spec@, self.user_input@, report@)
                    == workflow_step(
                    old(self).model(),
                    project_spec@,
                    old(self).user_input@,
                    event@,
                ),
            decreases self.agents.len() - self.current,
        {
            let position = self.current;
            let ghost before = self.model();
            let ghost agents_before = self.agents@;
            let ghost reported = report@;
            let result = self.agents[position].execute_workflow(
                project_spec,
                &self.user_input,
                report,
            );
            assert(self.agents@ =~= agents_before.update(
                position as int,
                self.agents@[position as int],
            ));
            assert(self.model().agents =~= before.agents.update(
                position as int,
                self.agents@[position as int].model(),
            ));
            match result {
                Err(error) => {
                    proof {
                        lemma_step_makes_progress(
                            before.agents[position as int],
                            project_spec@,
                            self.user_input@,
                            reported,
                        );
                        assert(self.model().agents =~= before.agents);
                    }
                    self.failure = Some(error);
                    assert(self.model().agents =~= before.agents);
                    return Err(error);
                },
                Ok(AgentAction::Finished) => {
                    self.current = position + 1;
                    report = AgentEvent::Begin;
                },
                Ok(action) => {
                    return Ok(action);
                },
            }
        }
        Ok(AgentAction::Finished)
    }
}

} // verus!
