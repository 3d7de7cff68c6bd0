use agent_pipeline::ai_functions::{extend_ai_function, PromptTemplate};
use agent_pipeline::llm::{
    build_chat_completion, first_choice_content, validate_credentials, APIChoice, APIMessage,
    Message, CHAT_TEMPERATURE_HUNDREDTHS,
};
use agent_pipeline::error::PipelineError;

#[test]
fn tests_extending_ai_function() {
    let extended_msg: Message =
        extend_ai_function(PromptTemplate::ConvertUserInputToGoal, "dummy variable");
    assert_eq!(extended_msg.role, "system".to_string());
}

#[test]
fn tests_extended_message_embeds_input() {
    let msg = extend_ai_function(
        PromptTemplate::PrintProjectScope,
        "Build me a stock price tracking API",
    );
    assert!(msg.content.starts_with("FUNCTION: "));
    assert!(msg.content.contains("You are a function printer"));
    assert!(msg.content.contains("Build me a stock price tracking API"));
    assert!(msg.content.ends_with("Print out what the function will return."));
}

#[test]
fn tests_build_chat_completion() {
    let messages = vec![Message {
        role: "user".to_string(),
        content: "Hi there, this is a test. Give me a short response.".to_string(),
    }];
    let completion = build_chat_completion(messages);
    assert_eq!(completion.model, "gpt-4".to_string());
    assert_eq!(completion.temperature_hundredths, CHAT_TEMPERATURE_HUNDREDTHS);
    assert_eq!(completion.messages.len(), 1);
    assert_eq!(completion.messages[0].role, "user".to_string());
}

#[test]
fn tests_validate_credentials() {
    let ok = validate_credentials(Some("key".to_string()), Some("org".to_string()));
    assert_eq!(ok.unwrap(), ("key".to_string(), "org".to_string()));

    let missing_key = validate_credentials(None, Some("org".to_string()));
    assert_eq!(missing_key.unwrap_err(), PipelineError::MissingCredentials);

    let missing_org = validate_credentials(Some("key".to_string()), None);
    assert_eq!(missing_org.unwrap_err(), PipelineError::MissingCredentials);
}

#[test]
fn tests_first_choice_content() {
    let choices = vec![
        APIChoice { message: APIMessage { content: "first".to_string() } },
        APIChoice { message: APIMessage { content: "second".to_string() } },
    ];
    assert_eq!(first_choice_content(choices).unwrap(), "first".to_string());

    let none: Vec<APIChoice> = Vec::new();
    assert_eq!(first_choice_content(none).unwrap_err(), PipelineError::TransportFailed);
}

#[test]
fn tests_error_descriptions() {
    assert_eq!(PipelineError::TooManyBugs.describe(), "Error: Too many bugs");
    assert_eq!(
        PipelineError::TransportFailed.describe(),
        "Failed twice to call the LLM endpoint"
    );
}
