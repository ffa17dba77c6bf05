use acadia::agents::architect_agent::ArchitectAgent;
use acadia::agents::backend_agent::BackendAgent;
use acadia::agents::base::AgentState;
use acadia::agents::development_workflow::{Agent, ProjectWorkflow};
use acadia::agents::manager_agent::ManagerAgent;
use acadia::agents::protocol::{AgentAction, AgentError, AgentEvent};
use acadia::models::project::{ProjectScope, ProjectSpec, SpecUpdate, UserInputs};

fn state_of(agent: &Agent) -> AgentState {
    match agent {
        Agent::Manager(agent) => agent.attributes.state,
        Agent::Architect(agent) => agent.attributes.state,
        Agent::Backend(agent) => agent.attributes.state,
    }
}

fn states(workflow: &ProjectWorkflow) -> Vec<AgentState> {
    workflow.agents.iter().map(state_of).collect()
}

fn operator_choices(backend_language: Option<&str>) -> UserInputs {
    let mut inputs = UserInputs::new();
    inputs.project_to_build = "a minimal todo list app".to_string();
    inputs.project_focus = Some("Backend".to_string());
    inputs.backend_language = backend_language.map(|language| language.to_string());
    inputs.llm_model = Some("GPT-4o".to_string());
    inputs
}

fn full_workflow(backend_language: Option<&str>) -> ProjectWorkflow {
    let mut workflow = ProjectWorkflow::new(operator_choices(backend_language));
    workflow.add_agent(Agent::Manager(ManagerAgent::new()));
    workflow.add_agent(Agent::Architect(ArchitectAgent::new()));
    workflow.add_agent(Agent::Backend(BackendAgent::new()));
    workflow
}

fn wanted_scope() -> ProjectScope {
    ProjectScope { is_crud_required: true, is_user_login: false, is_external_urls_required: true }
}

/// Plays the part of the outside world: performs `action` on `spec` and reports back.
fn perform(action: AgentAction, spec: &mut ProjectSpec, writes: &mut Vec<SpecUpdate>) -> AgentEvent {
    match action {
        AgentAction::InvokeModel(request) => match request.operation.as_str() {
            "convert_user_input_to_goal" => {
                AgentEvent::ModelText("Build a minimal todo list app".to_string())
            }
            "print_project_scope" => AgentEvent::ModelScope(wanted_scope()),
            "print_site_urls" => AgentEvent::ModelText(
                "[\"https://u1.example\", \"https://u2.example\", \"https://u3.example\"]"
                    .to_string(),
            ),
            "print_backend_webserver_code" => AgentEvent::ModelText("fn main() {}".to_string()),
            other => panic!("unknown operation {}", other),
        },
        AgentAction::ProbeUrls(urls) => {
            assert_eq!(urls.len(), 3);
            AgentEvent::ProbeStatuses(vec![Some(200), Some(500), None])
        }
        AgentAction::ReadTemplate(_) => AgentEvent::TemplateContents("TEMPLATE".to_string()),
        AgentAction::WriteGeneratedCode { .. } => AgentEvent::CodeWritten,
        AgentAction::Store(update) => {
            writes.push(update.clone());
            spec.apply(update);
            AgentEvent::Stored
        }
        AgentAction::Finished => panic!("nothing to perform"),
    }
}

#[test]
fn new_workflow_has_no_agents() {
    let workflow = ProjectWorkflow::new(operator_choices(None));
    assert!(workflow.agents.is_empty());
    assert_eq!(workflow.current, 0);
    assert_eq!(workflow.failure, None);
    assert_eq!(workflow.user_input, operator_choices(None));
}

#[test]
fn add_agent_appends_in_call_order() {
    let workflow = full_workflow(None);
    assert_eq!(workflow.agents.len(), 3);
    assert!(matches!(workflow.agents[0], Agent::Manager(_)));
    assert!(matches!(workflow.agents[1], Agent::Architect(_)));
    assert!(matches!(workflow.agents[2], Agent::Backend(_)));
    assert_eq!(workflow.current, 0);
}

#[test]
fn empty_workflow_finishes_at_once() {
    let mut workflow = ProjectWorkflow::new(operator_choices(None));
    let spec = ProjectSpec::new();
    assert_eq!(workflow.initiate_workflow(&spec), Ok(AgentAction::Finished));
    assert_eq!(workflow.resume_workflow(&spec, AgentEvent::Stored), Ok(AgentAction::Finished));
}

#[test]
fn test_initiate_workflow() {
    let mut project_workflow = ProjectWorkflow::new(operator_choices(None));
    project_workflow.add_agent(Agent::Manager(ManagerAgent::new()));
    project_workflow.add_agent(Agent::Architect(ArchitectAgent::new()));
    let mut project_spec = ProjectSpec::new();
    let mut writes: Vec<SpecUpdate> = Vec::new();
    let mut result = project_workflow.initiate_workflow(&project_spec);
    loop {
        let action = result.unwrap();
        if action == AgentAction::Finished {
            break;
        }
        let event = perform(action, &mut project_spec, &mut writes);
        result = project_workflow.resume_workflow(&project_spec, event);
    }
    assert_eq!(states(&project_workflow), vec![AgentState::Completed; 2]);
    assert_eq!(
        project_spec.project_description,
        Some("Build a minimal todo list app".to_string())
    );
    assert_eq!(project_spec.project_scope, Some(wanted_scope()));
    assert_eq!(project_spec.external_urls, Some(vec!["https://u1.example".to_string()]));
    assert_eq!(project_spec.backend_code, None);
}

#[test]
fn agents_take_their_turns_in_order_and_see_earlier_writes() {
    let mut workflow = full_workflow(Some("Rust + Axum"));
    let mut spec = ProjectSpec::new();
    let mut writes: Vec<SpecUpdate> = Vec::new();
    let mut writers: Vec<usize> = Vec::new();

    let mut result = workflow.initiate_workflow(&spec);
    let mut steps = 0;
    loop {
        let now = states(&workflow);
        for (position, state) in now.iter().enumerate() {
            if position < workflow.current {
                assert_eq!(*state, AgentState::Completed);
            }
            if position > workflow.current {
                assert_eq!(*state, AgentState::Discovery);
            }
        }
        let action = result.unwrap();
        if action == AgentAction::Finished {
            break;
        }
        if let AgentAction::Store(_) = action {
            writers.push(workflow.current);
        }
        if let AgentAction::InvokeModel(request) = &action {
            if request.operation == "print_site_urls" {
                assert!(request.prompt.content.contains("Build a minimal todo list app"));
            }
            if request.operation == "print_backend_webserver_code" {
                assert!(request.prompt.content.contains(
                    "CODE TEMPLATE: TEMPLATE \n PROJECT DESCRIPTION: Build a minimal todo list app \n built using Rust + Axum"
                ));
                assert_eq!(spec.external_urls, Some(vec!["https://u1.example".to_string()]));
                assert_eq!(spec.project_scope, Some(wanted_scope()));
            }
        }
        let event = perform(action, &mut spec, &mut writes);
        let before = workflow.current;
        result = workflow.resume_workflow(&spec, event);
        assert!(workflow.current >= before);
        steps += 1;
        assert!(steps <= 3 * 23);
    }
    assert_eq!(workflow.current, 3);
    assert_eq!(states(&workflow), vec![AgentState::Completed; 3]);
    assert_eq!(
        writes,
        vec![
            SpecUpdate::ProjectDescription("Build a minimal todo list app".to_string()),
            SpecUpdate::ProjectScope(wanted_scope()),
            SpecUpdate::ExternalUrls(vec!["https://u1.example".to_string()]),
            SpecUpdate::BackendCode("fn main() {}".to_string()),
        ]
    );
    assert_eq!(writers, vec![0, 1, 1, 2]);
    assert_eq!(spec.project_description, Some("Build a minimal todo list app".to_string()));
    assert_eq!(spec.project_scope, Some(wanted_scope()));
    assert_eq!(spec.external_urls, Some(vec!["https://u1.example".to_string()]));
    assert_eq!(spec.backend_code, Some("fn main() {}".to_string()));
    assert_eq!(spec.frontend_code, None);
    assert_eq!(workflow.resume_workflow(&spec, AgentEvent::Begin), Ok(AgentAction::Finished));
}

#[test]
fn a_failing_agent_stops_the_pipeline() {
    let mut workflow = full_workflow(None);
    let mut spec = ProjectSpec::new();
    let mut writes: Vec<SpecUpdate> = Vec::new();
    let mut result = workflow.initiate_workflow(&spec);
    while let Ok(action) = result.clone() {
        assert_ne!(action, AgentAction::Finished);
        assert!(!matches!(action, AgentAction::WriteGeneratedCode { .. }));
        let event = perform(action, &mut spec, &mut writes);
        result = workflow.resume_workflow(&spec, event);
    }
    assert_eq!(result, Err(AgentError::MissingBackendLanguage));
    assert_eq!(workflow.failure, Some(AgentError::MissingBackendLanguage));
    assert_eq!(workflow.current, 2);
    assert_eq!(
        states(&workflow),
        vec![AgentState::Completed, AgentState::Completed, AgentState::Discovery]
    );
    assert_eq!(spec.backend_code, None);
    assert_eq!(writes.len(), 3);
    let kept = spec.clone();
    assert_eq!(
        workflow.resume_workflow(&spec, AgentEvent::Begin),
        Err(AgentError::MissingBackendLanguage)
    );
    assert_eq!(
        workflow.resume_workflow(&spec, AgentEvent::Stored),
        Err(AgentError::MissingBackendLanguage)
    );
    assert_eq!(workflow.current, 2);
    assert_eq!(spec, kept);
}

#[test]
fn a_refused_write_stops_the_pipeline_before_the_next_agent() {
    let mut workflow = full_workflow(Some("Rust"));
    let spec = ProjectSpec::new();
    let first = workflow.initiate_workflow(&spec).unwrap();
    assert!(matches!(first, AgentAction::InvokeModel(_)));
    let second = workflow.resume_workflow(&spec, AgentEvent::ModelText("goal".to_string()));
    assert_eq!(
        second,
        Ok(AgentAction::Store(SpecUpdate::ProjectDescription("goal".to_string())))
    );
    assert_eq!(
        workflow.resume_workflow(&spec, AgentEvent::WriteRefused),
        Err(AgentError::WriteAccessUnavailable)
    );
    assert_eq!(workflow.current, 0);
    assert_eq!(
        states(&workflow),
        vec![AgentState::Discovery, AgentState::Discovery, AgentState::Discovery]
    );
    assert_eq!(workflow.failure, Some(AgentError::WriteAccessUnavailable));
}

#[test]
fn a_refused_write_in_the_backend_turn_leaves_no_artifact() {
    let mut workflow = full_workflow(Some("Rust + Axum"));
    let mut spec = ProjectSpec::new();
    let mut writes: Vec<SpecUpdate> = Vec::new();
    let mut result = workflow.initiate_workflow(&spec);
    while let Ok(action) = result.clone() {
        assert_ne!(action, AgentAction::Finished);
        assert!(!matches!(action, AgentAction::WriteGeneratedCode { .. }));
        let event = match action {
            AgentAction::Store(SpecUpdate::BackendCode(_)) => AgentEvent::WriteRefused,
            other => perform(other, &mut spec, &mut writes),
        };
        result = workflow.resume_workflow(&spec, event);
    }
    assert_eq!(result, Err(AgentError::WriteAccessUnavailable));
    assert_eq!(workflow.failure, Some(AgentError::WriteAccessUnavailable));
    assert_eq!(workflow.current, 2);
    assert_eq!(
        states(&workflow),
        vec![AgentState::Completed, AgentState::Completed, AgentState::Discovery]
    );
    assert_eq!(spec.backend_code, None);
    assert_eq!(writes.len(), 3);
    assert_eq!(
        workflow.resume_workflow(&spec, AgentEvent::Stored),
        Err(AgentError::WriteAccessUnavailable)
    );
}

#[test]
fn a_step_changes_nothing_of_an_agent_but_its_progress() {
    let mut workflow = full_workflow(Some("Rust"));
    let positions: Vec<String> = workflow
        .agents
        .iter()
        .map(|agent| match agent {
            Agent::Manager(agent) => agent.attributes.position.clone(),
            Agent::Architect(agent) => agent.attributes.position.clone(),
            Agent::Backend(agent) => agent.attributes.position.clone(),
        })
        .collect();
    let mut spec = ProjectSpec::new();
    let mut writes: Vec<SpecUpdate> = Vec::new();
    let mut result = workflow.initiate_workflow(&spec);
    loop {
        assert_eq!(workflow.agents.len(), 3);
        assert_eq!(workflow.user_input, operator_choices(Some("Rust")));
        for (position, agent) in workflow.agents.iter().enumerate() {
            let attributes = match agent {
                Agent::Manager(agent) => &agent.attributes,
                Agent::Architect(agent) => &agent.attributes,
                Agent::Backend(agent) => {
                    assert_eq!(agent.bug_counts, 0);
                    &agent.attributes
                }
            };
            assert_eq!(attributes.position, positions[position]);
            assert!(attributes.messages.is_empty());
            assert!(!attributes.objective.is_empty());
        }
        let action = result.unwrap();
        if action == AgentAction::Finished {
            break;
        }
        let event = perform(action, &mut spec, &mut writes);
        result = workflow.resume_workflow(&spec, event);
    }
}
