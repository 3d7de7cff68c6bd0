//! The data shapes exchanged with the LLM completion endpoint, and the
//! verified parts of assembling a completion request and reading its answer.

use vstd::prelude::*;
use vstd::string::StringExecFns;
use crate::error::PipelineError;

verus! {

/// A role-tagged message; immutable once created.  Messages are appended to
/// an agent's memory and shipped verbatim to the completion endpoint.
#[derive(Clone, Debug)]
pub struct Message {
    /// The role of the participant the message is attributed to
    /// (`system`, `user` or `assistant`).
    pub role: String,
    /// The text of the message.
    pub content: String,
}

/// The payload of one completion request: a model identifier, the full
/// conversation, and a sampling temperature.  Built fresh per call.
///
/// The endpoint takes the temperature as a fraction in `[0, 1]`; it is held
/// here in hundredths so that its range is a checked invariant.  The shell
/// divides by 100 when it serializes the request.
#[derive(Clone, Debug)]
pub struct ChatCompletion {
    /// The model identifier sent with the request.
    pub model: String,
    /// The messages to pass to the model, in conversation order.
    pub messages: Vec<Message>,
    /// The sampling temperature, in hundredths of the unit interval.
    pub temperature_hundredths: u8,
}

/// The message part of one answer choice in a completion response.
#[derive(Clone, Debug)]
pub struct APIMessage {
    /// The text of the answer.
    pub content: String,
}

/// One answer choice in a completion response.
#[derive(Clone, Debug)]
pub struct APIChoice {
    /// The message carried by this choice.
    pub message: APIMessage,
}

/// The model identifier every request is sent with.
pub open spec fn spec_chat_model() -> Seq<char> {
    "gpt-4"@
}

/// The temperature every request is sent with: `0.10`, deterministic-leaning.
pub const CHAT_TEMPERATURE_HUNDREDTHS: u8 = 10;

impl ChatCompletion {
    /// A request is well-formed when its temperature lies in the unit
    /// interval and it names the fixed model.
    pub open spec fn wf(&self) -> bool {
        &&& self.temperature_hundredths <= 100
        &&& self.model@ == spec_chat_model()
    }
}

/// Build the one completion request the pipeline ever sends: the fixed model
/// identifier, a low temperature, and the given conversation.
pub fn build_chat_completion(messages: Vec<Message>) -> (r: ChatCompletion)
    ensures
        r.wf(),
        r.temperature_hundredths == CHAT_TEMPERATURE_HUNDREDTHS,
        r.messages@ == messages@,
{
    ChatCompletion {
        model: String::from_str("gpt-4"),
        messages,
        temperature_hundredths: CHAT_TEMPERATURE_HUNDREDTHS,
    }
}

/// Check the two credentials the endpoint requires, before any network
/// activity.  A missing key or organization identifier is a fatal
/// configuration error; the shell reads them from its configuration and
/// hands them in as optional values.
pub fn validate_credentials(api_key: Option<String>, api_org: Option<String>) -> (r: Result<
    (String, String),
    PipelineError,
>)
    ensures
        match r {
            Ok(creds) => {
                &&& api_key matches Some(k) && creds.0@ == k@
                &&& api_org matches Some(o) && creds.1@ == o@
            },
            Err(e) => {
                &&& e is MissingCredentials
                &&& api_key is None || api_org is None
            },
        },
{
    match (api_key, api_org) {
        (Some(k), Some(o)) => Ok((k, o)),
        _ => Err(PipelineError::MissingCredentials),
    }
}

/// The text of a completion response: the first choice's message content.
/// A response with no choices is a service failure, surfaced as recoverable
/// so the requester's retry policy applies.
pub fn first_choice_content(choices: Vec<APIChoice>) -> (r: Result<String, PipelineError>)
    ensures
        match r {
            Ok(text) => choices@.len() > 0 && text@ == choices@[0].message.content@,
            Err(e) => e is TransportFailed && choices@.len() == 0,
        },
{
    let mut choices = choices;
    if choices.len() == 0 {
        Err(PipelineError::TransportFailed)
    } else {
        let choice = choices.remove(0);
        Ok(choice.message.content)
    }
}

} // verus!
