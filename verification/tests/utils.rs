use acadia::agents::base::{AgentKind, AgentState};
use acadia::agents::protocol::{explain_failure, fatal_diagnostic, AgentError};
use acadia::ai_functions::{
    convert_user_input_to_goal, print_backend_webserver_code, print_project_scope,
    print_site_urls,
};
use acadia::models::llm::{LLMModel, Message};
use acadia::models::project::{backend_languages, project_focus};
use acadia::utils::command_line::{
    project_details, Question, Questionnaire, QuestionnaireError,
};
use acadia::utils::files_io::{code_template_path, generated_code_path};
use acadia::utils::llm_requests::{
    api_instruction_wrapper, bearer_authorization, make_llm_request, make_llm_request_decoded,
    parse_string_list, Endpoint, ReplyShape,
};

fn lines(items: &[&str]) -> Vec<String> {
    items.iter().map(|item| item.to_string()).collect()
}

fn instruction(ai_function: &str, user_input: &str) -> String {
    format!(
        "FUNCTION: {}
        INSTRUCTION: You are a function printer, you ONLY print the results of functions
        and NOTHING else. No commentary. Here is the input of the function: {}.
        Print out what the function will return.
        ",
        ai_function, user_input
    )
}

#[test]
fn test_project_manager_ai_function() {
    let ai_func_str = convert_user_input_to_goal("Create a budget management app");
    assert!(ai_func_str.starts_with("fn convert_user_input_to_goal("));
    assert_eq!(ai_func_str, convert_user_input_to_goal("anything else"));
}

#[test]
fn capabilities_are_distinct_and_named() {
    let texts = [
        convert_user_input_to_goal(""),
        print_project_scope(""),
        print_site_urls(""),
        print_backend_webserver_code(""),
    ];
    let names = [
        "convert_user_input_to_goal",
        "print_project_scope",
        "print_site_urls",
        "print_backend_webserver_code",
    ];
    for i in 0..4 {
        assert!(texts[i].starts_with(format!("fn {}(", names[i]).as_str()));
        for j in 0..4 {
            if i != j {
                assert_ne!(texts[i], texts[j]);
            }
        }
    }
    assert!(print_project_scope("").contains("is_crud_required"));
    assert!(print_project_scope("").contains("is_user_login"));
    assert!(print_project_scope("").contains("is_external_urls_required"));
}

#[test]
fn instruction_message_has_the_exact_text() {
    let message = api_instruction_wrapper("fn f()", "Build a super simple todo app");
    assert_eq!(message.role, "system");
    assert_eq!(message.content, instruction("fn f()", "Build a super simple todo app"));
    assert_eq!(
        message.content,
        "FUNCTION: fn f()\n        INSTRUCTION: You are a function printer, you ONLY print the results of functions\n        and NOTHING else. No commentary. Here is the input of the function: Build a super simple todo app.\n        Print out what the function will return.\n        "
    );
}

#[test]
fn instruction_message_with_empty_parts() {
    let message = api_instruction_wrapper("", "");
    assert_eq!(message.content, instruction("", ""));
}

#[test]
fn test_elaborate_llm_request() {
    let request = make_llm_request(
        LLMModel::Llama3("Llama3".to_string()),
        convert_user_input_to_goal("Build a super simple todo app"),
        "Build a super simple todo app",
        "convert_user_input_to_goal",
    );
    assert_eq!(request.model, LLMModel::Llama3("Llama3".to_string()));
    assert_eq!(request.operation, "convert_user_input_to_goal");
    assert_eq!(request.reply, ReplyShape::Text);
    assert_eq!(
        request.prompt,
        Message {
            role: "system".to_string(),
            content: instruction(
                convert_user_input_to_goal(""),
                "Build a super simple todo app"
            ),
        }
    );
}

#[test]
fn decoded_llm_request_carries_the_shape() {
    let request = make_llm_request_decoded(
        LLMModel::GPT4o("GPT4o".to_string()),
        "fn g()",
        "input",
        "g",
        ReplyShape::UrlList,
    );
    assert_eq!(request.model, LLMModel::GPT4o("GPT4o".to_string()));
    assert_eq!(request.reply, ReplyShape::UrlList);
    assert_eq!(request.prompt.content, instruction("fn g()", "input"));
    assert_eq!(request.operation, "g");
}

#[test]
fn string_lists_are_decoded_from_json() {
    assert_eq!(
        parse_string_list("[\"https://a.example\", \"https://b.example/x\"]"),
        Some(lines(&["https://a.example", "https://b.example/x"]))
    );
    assert_eq!(parse_string_list("[]"), Some(vec![]));
    assert_eq!(parse_string_list(" [\"a\\nb\"] "), Some(lines(&["a\nb"])));
}

#[test]
fn string_lists_reject_other_json() {
    assert_eq!(parse_string_list(""), None);
    assert_eq!(parse_string_list("not json"), None);
    assert_eq!(parse_string_list("{\"urls\": []}"), None);
    assert_eq!(parse_string_list("[1, 2]"), None);
    assert_eq!(parse_string_list("[\"a\"] trailing"), None);
    assert_eq!(parse_string_list("\"a\""), None);
}

#[test]
fn endpoint_follows_the_model() {
    assert_eq!(Endpoint::select(&Some(LLMModel::GPT4o("GPT4o".to_string()))), Endpoint::Remote);
    assert_eq!(Endpoint::select(&Some(LLMModel::Llama3("x".to_string()))), Endpoint::Local);
    assert_eq!(Endpoint::select(&None), Endpoint::Local);
    assert_eq!(Endpoint::Remote.url_variable(), "OPEN_AI_URL");
    assert_eq!(Endpoint::Local.url_variable(), "LLM_URL");
}

#[test]
fn request_body_names_the_model_of_the_endpoint() {
    let message = Message { role: "user".to_string(), content: "hi".to_string() };
    let remote = Endpoint::Remote.request_body(vec![message.clone()], "gpt-4o".to_string());
    assert_eq!(remote.model, "gpt-4o");
    assert_eq!(remote.messages, vec![message.clone()]);
    let local = Endpoint::Local.request_body(vec![message.clone()], "gpt-4o".to_string());
    assert_eq!(local.model, "Llama3");
    assert_eq!(local.messages, vec![message]);
}

#[test]
fn bearer_authorization_prefixes_the_key() {
    assert_eq!(bearer_authorization("abc"), "Bearer abc");
    assert_eq!(bearer_authorization(""), "Bearer ");
}

#[test]
fn template_path_is_the_same_for_every_call() {
    let first = code_template_path("Rust");
    let second = code_template_path("Rust");
    assert_eq!(first, second);
    assert_eq!(first, "code_templates/rust_axum/main.rs");
    assert_eq!(code_template_path("rust"), "code_templates/rust_axum/main.rs");
    assert_eq!(code_template_path("Python + Flask"), "code_templates/rust_axum/main.rs");
    assert_eq!(generated_code_path("Rust"), "generated_code/main.rs");
}

#[test]
fn fatal_diagnostic_names_role_and_failure() {
    assert_eq!(
        fatal_diagnostic(
            "Backend Developer",
            AgentKind::Backend,
            AgentState::Discovery,
            AgentError::MissingBackendLanguage
        ),
        "Backend Developer: No language was selected. Exiting program"
    );
    assert_eq!(
        fatal_diagnostic(
            "Project Manager",
            AgentKind::Manager,
            AgentState::Discovery,
            AgentError::WriteAccessUnavailable
        ),
        "Project Manager: Failed to acquire write lock on project_spec"
    );
    assert_eq!(
        fatal_diagnostic(
            "Solutions Architect",
            AgentKind::Architect,
            AgentState::Discovery,
            AgentError::UndecodableModelOutput
        ),
        "Solutions Architect: Could not deserialize LLM response"
    );
    assert_eq!(
        AgentError::ModelUnreachable.describe(),
        "Error occurred when calling LLM service"
    );
    assert_eq!(AgentError::MissingProjectDescription.describe(), "Project description not found");
    assert_eq!(
        AgentError::UnexpectedEvent.describe(),
        "Received a report on an action that was not asked for"
    );
}

#[test]
fn refused_writes_are_named_after_what_was_being_written() {
    let refused = AgentError::WriteAccessUnavailable;
    assert_eq!(
        explain_failure(AgentKind::Manager, AgentState::Discovery, refused),
        "Failed to acquire write lock on project_spec"
    );
    assert_eq!(
        explain_failure(AgentKind::Architect, AgentState::Discovery, refused),
        "Unable to write project scope to Project Spec"
    );
    assert_eq!(
        explain_failure(AgentKind::Architect, AgentState::UnitTesting, refused),
        "Unable to write external urls to Project Spec"
    );
    assert_eq!(
        explain_failure(AgentKind::Backend, AgentState::Discovery, refused),
        "Failed to generate backend code"
    );
    assert_eq!(
        fatal_diagnostic(
            "Backend Developer",
            AgentKind::Backend,
            AgentState::Discovery,
            refused
        ),
        "Backend Developer: Failed to generate backend code"
    );
    assert_eq!(
        explain_failure(AgentKind::Backend, AgentState::Discovery, AgentError::ModelUnreachable),
        "Error occurred when calling LLM service"
    );
    assert_eq!(
        explain_failure(
            AgentKind::Architect,
            AgentState::Working,
            AgentError::MissingProjectDescription
        ),
        "Project description not found"
    );
}

#[test]
fn test_fill_project_details() {
    let details = project_details(lines(&[
        "a minimal todo list app\n",
        "Fullstack",
        "Rust + Axum",
        "JavaScript + React",
        "GPT-4o",
    ]))
    .unwrap();
    assert_eq!(details.project_to_build, "a minimal todo list app\n");
    assert_eq!(details.project_focus, Some("Fullstack".to_string()));
    assert_eq!(details.backend_language, Some("Rust + Axum".to_string()));
    assert_eq!(details.frontend_language, Some("JavaScript + React".to_string()));
    assert_eq!(details.llm_model, Some("GPT-4o".to_string()));
}

#[test]
fn backend_focus_skips_the_frontend_question() {
    let details =
        project_details(lines(&["shop", "Backend", "Python + Flask", "Llama3"])).unwrap();
    assert_eq!(details.backend_language, Some("Python + Flask".to_string()));
    assert_eq!(details.frontend_language, None);
    assert_eq!(details.llm_model, Some("Llama3".to_string()));
}

#[test]
fn frontend_focus_skips_the_backend_question() {
    let details =
        project_details(lines(&["shop", "Frontend", "JavaScript + Svelte", "Llama3"])).unwrap();
    assert_eq!(details.backend_language, None);
    assert_eq!(details.frontend_language, Some("JavaScript + Svelte".to_string()));
}

#[test]
fn questionnaire_errors() {
    assert_eq!(
        project_details(lines(&["shop", "Mobile", "x", "y"])),
        Err(QuestionnaireError::UnknownFocus)
    );
    assert_eq!(project_details(vec![]), Err(QuestionnaireError::Unanswered));
    assert_eq!(
        project_details(lines(&["shop", "Backend", "Rust + Axum"])),
        Err(QuestionnaireError::Unanswered)
    );
    assert_eq!(
        project_details(lines(&["shop", "Backend", "Rust + Axum", "Llama3", "extra"])),
        Err(QuestionnaireError::NothingAsked)
    );
}

#[test]
fn questionnaire_asks_in_order() {
    let mut questionnaire = Questionnaire::new();
    assert_eq!(questionnaire.next, Some(Question::ProjectToBuild));
    let first = Question::ProjectToBuild.prompt();
    assert_eq!(first.text, "What project are we building?");
    assert_eq!(first.options, None);
    questionnaire.answer("blog".to_string()).unwrap();
    assert_eq!(questionnaire.next, Some(Question::ProjectFocus));
    let second = Question::ProjectFocus.prompt();
    assert_eq!(second.text, "What is the project area of focus");
    assert_eq!(second.options, Some(project_focus()));
    assert_eq!(
        questionnaire.answer("Nothing".to_string()),
        Err(QuestionnaireError::UnknownFocus)
    );
    assert_eq!(questionnaire.next, Some(Question::ProjectFocus));
    assert_eq!(questionnaire.inputs.project_focus, None);
    questionnaire.answer("Backend".to_string()).unwrap();
    assert_eq!(questionnaire.next, Some(Question::BackendLanguage));
    let third = Question::BackendLanguage.prompt();
    assert_eq!(third.text, "What backend language do you prefer to use?");
    assert_eq!(third.options, Some(backend_languages()));
    questionnaire.answer("Rust + Axum".to_string()).unwrap();
    assert_eq!(questionnaire.next, Some(Question::LlmModel));
    assert_eq!(
        Question::LlmModel.prompt().text,
        "Which LLM model do you want to build this project?"
    );
    assert_eq!(
        Question::FrontendLanguage.prompt().text,
        "What frontend language do you prefer to use?"
    );
    questionnaire.answer("Llama3".to_string()).unwrap();
    assert_eq!(questionnaire.next, None);
    assert_eq!(
        questionnaire.answer("more".to_string()),
        Err(QuestionnaireError::NothingAsked)
    );
}
