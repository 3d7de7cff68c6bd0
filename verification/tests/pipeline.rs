use agent_pipeline::agent_backend::{AgentBackendDeveloper, BuildOutcome, DeveloperAction};
use agent_pipeline::agent_basic::{AgentState, BasicAgent};
use agent_pipeline::agent_traits::FactSheet;
use agent_pipeline::ai_functions::PromptTemplate;
use agent_pipeline::error::PipelineError;
use agent_pipeline::managing_agent::{ManagingAgent, PipelineStage};
use agent_pipeline::requester::TaskRequest;

#[test]
fn tests_basic_agent_starts_in_discovery() {
    let agent = BasicAgent::new("objective".to_string(), "position".to_string());
    assert_eq!(*agent.get_state(), AgentState::Discovery);
    assert_eq!(agent.get_objective(), "objective");
    assert_eq!(agent.get_position(), "position");
    assert!(agent.get_memory().is_empty());
}

#[test]
fn tests_task_request_succeeds_first_try() {
    let mut request = TaskRequest::new(
        PromptTemplate::ConvertUserInputToGoal,
        "Build me a web server for making stock price api requests.",
        "Managing Agent".to_string(),
        "Defining user requirements".to_string(),
    );
    assert!(request.is_pending());
    assert_eq!(request.attempts_issued, 0);
    request.record_outcome(Some("a goal".to_string()));
    assert!(!request.is_pending());
    assert_eq!(request.attempts_issued, 1);
    assert_eq!(request.into_result().unwrap(), "a goal".to_string());
}

#[test]
fn tests_task_request_retries_exactly_once() {
    let mut request = TaskRequest::new(
        PromptTemplate::PrintProjectScope,
        "context",
        "Solutions Architect".to_string(),
        "print_project_scope".to_string(),
    );
    request.record_outcome(None);
    // one transport failure leaves the request pending for the single retry
    assert!(request.is_pending());
    assert_eq!(request.attempts_issued, 1);
    request.record_outcome(Some("answer".to_string()));
    assert!(!request.is_pending());
    assert_eq!(request.attempts_issued, 2);
    assert_eq!(request.into_result().unwrap(), "answer".to_string());
}

#[test]
fn tests_task_request_fatal_after_two_failures() {
    let mut request = TaskRequest::new(
        PromptTemplate::PrintSiteUrls,
        "context",
        "Solutions Architect".to_string(),
        "print_site_urls".to_string(),
    );
    request.record_outcome(None);
    request.record_outcome(None);
    // both the attempt and the retry failed: no further call is owed
    assert!(!request.is_pending());
    assert_eq!(request.attempts_issued, 2);
    assert_eq!(request.into_result().unwrap_err(), PipelineError::TransportFailed);
}

#[test]
fn tests_backend_developer_build_success_resets_bug_count() {
    let mut agent = AgentBackendDeveloper::new();
    let mut factsheet = FactSheet::new("a web service".to_string());
    agent.record_generated_code(&mut factsheet, "fn main() {}".to_string());
    agent.record_generated_code(&mut factsheet, "fn main() { improved() }".to_string());
    assert_eq!(agent.attributes.state, AgentState::UnitTesting);

    agent
        .record_build_result(BuildOutcome::Failure("error: missing semicolon".to_string()))
        .unwrap();
    assert_eq!(agent.bug_count, 1);
    assert_eq!(agent.attributes.state, AgentState::Working);
    assert_eq!(agent.next_action(), DeveloperAction::FixCode);

    agent.record_generated_code(&mut factsheet, "fn main() { fixed() }".to_string());
    agent.record_build_result(BuildOutcome::Success).unwrap();
    assert_eq!(agent.bug_count, 0);
    assert_eq!(agent.attributes.state, AgentState::Finished);
    assert_eq!(agent.next_action(), DeveloperAction::Done);
}

#[test]
fn tests_backend_developer_safety_gate() {
    let agent = AgentBackendDeveloper::new();
    assert!(agent.safety_gate(true).is_ok());
    assert_eq!(agent.safety_gate(false).unwrap_err(), PipelineError::SafetyRejected);
}

#[test]
fn tests_backend_developer_requests() {
    let mut factsheet = FactSheet::new("a stock tracking service".to_string());
    let mut agent = AgentBackendDeveloper::new();
    assert_eq!(agent.next_action(), DeveloperAction::GenerateInitialCode);

    let initial = agent.initial_code_request("fn template() {}", &factsheet);
    assert_eq!(initial.agent_position, "Backend Developer");
    assert_eq!(initial.agent_operation, "print_backend_webserver_code");
    assert!(initial.message.content.contains("fn template() {}"));
    assert!(initial.message.content.contains("a stock tracking service"));

    agent.record_generated_code(&mut factsheet, "fn generated() {}".to_string());
    assert_eq!(agent.next_action(), DeveloperAction::ImproveCode);
    let improve = agent.improved_code_request(&factsheet);
    assert_eq!(improve.agent_operation, "print_improved_webserver_code");
    assert!(improve.message.content.contains("fn generated() {}"));

    agent.record_generated_code(&mut factsheet, "fn improved() {}".to_string());
    assert_eq!(agent.next_action(), DeveloperAction::TestBuild);
    agent
        .record_build_result(BuildOutcome::Failure("expected `;`".to_string()))
        .unwrap();
    let fix = agent.fix_code_request(&factsheet);
    assert_eq!(fix.agent_operation, "print_fixed_code");
    assert!(fix.message.content.contains("fn improved() {}"));
    assert!(fix.message.content.contains("expected `;`"));

    let extract = agent.extract_rest_api_endpoints_request("fn improved() {}");
    assert_eq!(extract.agent_operation, "print_rest_api_endpoints");
    assert!(extract.message.content.contains("CODE_INPUT: fn improved() {}"));
}

#[test]
fn tests_backend_developer() {
    // the scenario of the whole run, driven without any outside calls:
    // architect, then the backend developer against a build that fails
    // three times in a row
    let mut manager = ManagingAgent::new("Build me a stock price tracking API".to_string());
    assert_eq!(
        manager.factsheet.project_description,
        "Build me a stock price tracking API"
    );
    assert_eq!(manager.next_stage(), PipelineStage::Architecture);

    let scope_answer = "{\"is_crud_required\":false,\"is_user_login_and_logout\":false,\"is_external_urls_required\":true}";
    let scope = manager
        .architect
        .record_project_scope(&mut manager.factsheet, scope_answer)
        .unwrap();
    assert!(!scope.is_crud_required);
    assert!(!scope.is_user_login_and_logout);
    assert!(scope.is_external_urls_required);
    assert_eq!(manager.architect.attributes.state, AgentState::Working);

    let urls_answer = "[\"https://api.stockdata.example/prices\"]";
    manager
        .architect
        .record_external_urls(&mut manager.factsheet, urls_answer)
        .unwrap();
    let urls = manager.factsheet.external_urls.clone().unwrap();
    assert!(!urls.is_empty());
    assert_eq!(manager.architect.attributes.state, AgentState::UnitTesting);

    let unreachable = manager
        .architect
        .review_external_urls(&manager.factsheet, &vec![true]);
    assert_eq!(unreachable, 0);
    assert_eq!(manager.architect.attributes.state, AgentState::Finished);
    assert_eq!(manager.next_stage(), PipelineStage::BackendDevelopment);

    let developer = &mut manager.backend_developer;
    assert_eq!(developer.next_action(), DeveloperAction::GenerateInitialCode);
    developer.record_generated_code(&mut manager.factsheet, "fn main() { serve() }".to_string());
    assert!(!manager.factsheet.backend_code.clone().unwrap().is_empty());
    assert_eq!(developer.attributes.state, AgentState::Working);

    developer.record_generated_code(&mut manager.factsheet, "fn main() { serve_v2() }".to_string());
    assert_eq!(developer.attributes.state, AgentState::UnitTesting);

    // first forced build failure: one bug, control returns to Working
    developer
        .record_build_result(BuildOutcome::Failure("error one".to_string()))
        .unwrap();
    assert_eq!(developer.bug_count, 1);
    assert_eq!(developer.attributes.state, AgentState::Working);

    // second forced failure
    developer.record_generated_code(&mut manager.factsheet, "fn main() { fix1() }".to_string());
    developer
        .record_build_result(BuildOutcome::Failure("error two".to_string()))
        .unwrap();
    assert_eq!(developer.bug_count, 2);
    assert_eq!(developer.attributes.state, AgentState::Working);

    // the third consecutive failure aborts the run
    developer.record_generated_code(&mut manager.factsheet, "fn main() { fix2() }".to_string());
    let fatal = developer
        .record_build_result(BuildOutcome::Failure("error three".to_string()))
        .unwrap_err();
    assert_eq!(fatal, PipelineError::TooManyBugs);
    assert_eq!(fatal.describe(), "Error: Too many bugs");
}

#[test]
fn tests_factsheet_fields_only_gain_values() {
    let mut manager = ManagingAgent::new("a project".to_string());
    assert!(manager.factsheet.project_scope.is_none());
    assert!(manager.factsheet.external_urls.is_none());
    assert!(manager.factsheet.backend_code.is_none());
    assert!(manager.factsheet.api_endpoint_schema.is_none());

    let scope_answer = "{\"is_crud_required\":true,\"is_user_login_and_logout\":true,\"is_external_urls_required\":true}";
    manager
        .architect
        .record_project_scope(&mut manager.factsheet, scope_answer)
        .unwrap();
    manager
        .architect
        .record_external_urls(&mut manager.factsheet, "[]")
        .unwrap();
    manager
        .architect
        .review_external_urls(&manager.factsheet, &Vec::new());
    manager
        .backend_developer
        .record_generated_code(&mut manager.factsheet, "code".to_string());
    manager.record_api_endpoint_schema(Vec::new());

    assert!(manager.factsheet.project_scope.is_some());
    assert!(manager.factsheet.external_urls.is_some());
    assert!(manager.factsheet.backend_code.is_some());
    assert!(manager.factsheet.api_endpoint_schema.is_some());
    assert_eq!(manager.factsheet.project_description, "a project");
    assert_eq!(manager.next_stage(), PipelineStage::BackendDevelopment);
}

#[test]
fn tests_pipeline_stages_run_in_order() {
    let mut manager = ManagingAgent::new("a project".to_string());
    assert_eq!(manager.next_stage(), PipelineStage::Architecture);

    // a scope that needs no external URLs records an empty list and passes
    // through the same states as one that does
    let scope_answer = "{\"is_crud_required\":true,\"is_user_login_and_logout\":false,\"is_external_urls_required\":false}";
    manager
        .architect
        .record_project_scope(&mut manager.factsheet, scope_answer)
        .unwrap();
    assert_eq!(manager.architect.attributes.state, AgentState::Working);

    manager.architect.record_no_external_urls(&mut manager.factsheet);
    assert_eq!(manager.factsheet.external_urls, Some(Vec::new()));
    assert_eq!(manager.architect.attributes.state, AgentState::UnitTesting);

    manager
        .architect
        .review_external_urls(&manager.factsheet, &Vec::new());
    assert_eq!(manager.architect.attributes.state, AgentState::Finished);
    assert_eq!(manager.next_stage(), PipelineStage::BackendDevelopment);

    let developer = &mut manager.backend_developer;
    developer.record_generated_code(&mut manager.factsheet, "code".to_string());
    developer.record_generated_code(&mut manager.factsheet, "better code".to_string());
    developer.record_build_result(BuildOutcome::Success).unwrap();
    assert_eq!(manager.next_stage(), PipelineStage::SchemaExtraction);

    manager.record_api_endpoint_schema(Vec::new());
    assert_eq!(manager.next_stage(), PipelineStage::Complete);
}

#[test]
fn tests_architect_url_review_counts_unreachable() {
    let mut manager = ManagingAgent::new("a project".to_string());
    let scope_answer = "{\"is_crud_required\":false,\"is_user_login_and_logout\":false,\"is_external_urls_required\":true}";
    manager
        .architect
        .record_project_scope(&mut manager.factsheet, scope_answer)
        .unwrap();
    manager
        .architect
        .record_external_urls(
            &mut manager.factsheet,
            "[\"https://a.example\",\"https://b.example\",\"https://c.example\"]",
        )
        .unwrap();
    assert_eq!(manager.architect.attributes.state, AgentState::UnitTesting);

    let unreachable = manager
        .architect
        .review_external_urls(&manager.factsheet, &vec![true, false, false]);
    assert_eq!(unreachable, 2);
    assert_eq!(manager.architect.attributes.state, AgentState::Finished);
}

#[test]
fn tests_goal_request_identifies_the_manager() {
    let request = ManagingAgent::goal_request("Build me a todo app");
    assert_eq!(request.agent_position, "Project Manager");
    assert_eq!(request.agent_operation, "convert_user_input_to_goal");
    assert!(request.is_pending());
    assert!(request.message.content.contains("Build me a todo app"));
}

#[test]
fn tests_architect_decode_failure_is_fatal_and_changes_nothing() {
    let mut manager = ManagingAgent::new("a project".to_string());
    let err = manager
        .architect
        .record_project_scope(&mut manager.factsheet, "no json here")
        .unwrap_err();
    assert_eq!(err, PipelineError::DecodeFailed);
    assert!(manager.factsheet.project_scope.is_none());
    assert_eq!(manager.architect.attributes.state, AgentState::Discovery);
}

#[test]
fn tests_factsheet_render() {
    let mut manager = ManagingAgent::new("a project".to_string());
    let rendered = manager.factsheet.render();
    assert_eq!(
        rendered,
        "PROJECT_DESCRIPTION: a project\nPROJECT_SCOPE: null\nEXTERNAL_URLS: null"
    );

    let scope_answer = "{\"is_crud_required\":true,\"is_user_login_and_logout\":false,\"is_external_urls_required\":true}";
    manager
        .architect
        .record_project_scope(&mut manager.factsheet, scope_answer)
        .unwrap();
    manager
        .architect
        .record_external_urls(&mut manager.factsheet, "[\"https://a.example\"]")
        .unwrap();
    let rendered = manager.factsheet.render();
    assert_eq!(
        rendered,
        "PROJECT_DESCRIPTION: a project\nPROJECT_SCOPE: {\"is_crud_required\":true,\"is_user_login_and_logout\":false,\"is_external_urls_required\":true}\nEXTERNAL_URLS: [\"https://a.example\"]"
    );
}
