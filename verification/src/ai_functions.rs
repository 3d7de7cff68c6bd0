//! The role-specific prompt templates, and the wrapper that turns a
//! template plus an input into the single system message sent to the LLM.
//!
//! Each template stands for one instruction text describing a function the
//! model must act as; the requester embeds it, a fixed directive that the
//! model emit only that function's literal return value, and the
//! caller-supplied input.

use vstd::prelude::*;
use vstd::string::StringExecFns;
use crate::llm::Message;

verus! {

/// The closed set of prompt templates the pipeline issues.
#[derive(Clone, Copy, Debug, PartialEq, Eq, Structural)]
pub enum PromptTemplate {
    /// Restate the user's request as a concise project goal.
    ConvertUserInputToGoal,
    /// Emit the project scope as a JSON object of three booleans.
    PrintProjectScope,
    /// Emit the external URLs the project needs as a JSON array of strings.
    PrintSiteUrls,
    /// Write the first version of the backend web server code from a code
    /// template and the project description.
    PrintBackendWebserverCode,
    /// Rewrite the existing backend code into an improved version.
    PrintImprovedWebserverCode,
    /// Repair backend code from the build tool's diagnostics.
    PrintFixedCode,
    /// Emit the REST API endpoints of the backend code as a JSON schema.
    PrintRestApiEndpoints,
}

impl PromptTemplate {
    /// The operation label of the template, used to identify the call in
    /// status notifications.
    pub fn name(&self) -> (r: &'static str)
        ensures
            r@ == self.spec_name(),
    {
        match self {
            PromptTemplate::ConvertUserInputToGoal => "convert_user_input_to_goal",
            PromptTemplate::PrintProjectScope => "print_project_scope",
            PromptTemplate::PrintSiteUrls => "print_site_urls",
            PromptTemplate::PrintBackendWebserverCode => "print_backend_webserver_code",
            PromptTemplate::PrintImprovedWebserverCode => "print_improved_webserver_code",
            PromptTemplate::PrintFixedCode => "print_fixed_code",
            PromptTemplate::PrintRestApiEndpoints => "print_rest_api_endpoints",
        }
    }

    /// The label returned by [`Self::name`].
    pub open spec fn spec_name(&self) -> Seq<char> {
        match self {
            PromptTemplate::ConvertUserInputToGoal => "convert_user_input_to_goal"@,
            PromptTemplate::PrintProjectScope => "print_project_scope"@,
            PromptTemplate::PrintSiteUrls => "print_site_urls"@,
            PromptTemplate::PrintBackendWebserverCode => "print_backend_webserver_code"@,
            PromptTemplate::PrintImprovedWebserverCode => "print_improved_webserver_code"@,
            PromptTemplate::PrintFixedCode => "print_fixed_code"@,
            PromptTemplate::PrintRestApiEndpoints => "print_rest_api_endpoints"@,
        }
    }

    /// The instruction text of the template: what function the model is to
    /// act as.
    pub fn text(&self) -> (r: &'static str)
        ensures
            r@ == self.spec_text(),
    {
        match self {
            PromptTemplate::ConvertUserInputToGoal => "fn convert_user_input_to_goal(user_request: String) -> String: restates the user request as a one-line project goal.",
            PromptTemplate::PrintProjectScope => "fn print_project_scope(project_description: String) -> ProjectScope: prints a JSON object holding exactly the boolean fields is_crud_required, is_user_login_and_logout and is_external_urls_required, in that order, with no other fields.",
            PromptTemplate::PrintSiteUrls => "fn print_site_urls(project_scope: String) -> Vec<String>: prints a JSON array of the external URLs the project will call, each a plain double-quoted string without escape sequences.",
            PromptTemplate::PrintBackendWebserverCode => "fn print_backend_webserver_code(project_description_and_template: String) -> String: rewrites the CODE_TEMPLATE so that it implements the PROJECT_DESCRIPTION, and prints only the code.",
            PromptTemplate::PrintImprovedWebserverCode => "fn print_improved_webserver_code(project_description_and_code: String) -> String: improves the given backend code for the given project, and prints only the code.",
            PromptTemplate::PrintFixedCode => "fn print_fixed_code(broken_code_with_bugs: String) -> String: removes the bugs reported in ERROR_BUGS from the BROKEN_CODE, and prints only the code.",
            PromptTemplate::PrintRestApiEndpoints => "fn print_rest_api_endpoints(code_input: String) -> String: prints a JSON schema of the REST API endpoints of the given backend code.",
        }
    }

    /// The instruction text returned by [`Self::text`].
    pub open spec fn spec_text(&self) -> Seq<char> {
        match self {
            PromptTemplate::ConvertUserInputToGoal => "fn convert_user_input_to_goal(user_request: String) -> String: restates the user request as a one-line project goal."@,
            PromptTemplate::PrintProjectScope => "fn print_project_scope(project_description: String) -> ProjectScope: prints a JSON object holding exactly the boolean fields is_crud_required, is_user_login_and_logout and is_external_urls_required, in that order, with no other fields."@,
            PromptTemplate::PrintSiteUrls => "fn print_site_urls(project_scope: String) -> Vec<String>: prints a JSON array of the external URLs the project will call, each a plain double-quoted string without escape sequences."@,
            PromptTemplate::PrintBackendWebserverCode => "fn print_backend_webserver_code(project_description_and_template: String) -> String: rewrites the CODE_TEMPLATE so that it implements the PROJECT_DESCRIPTION, and prints only the code."@,
            PromptTemplate::PrintImprovedWebserverCode => "fn print_improved_webserver_code(project_description_and_code: String) -> String: improves the given backend code for the given project, and prints only the code."@,
            PromptTemplate::PrintFixedCode => "fn print_fixed_code(broken_code_with_bugs: String) -> String: removes the bugs reported in ERROR_BUGS from the BROKEN_CODE, and prints only the code."@,
            PromptTemplate::PrintRestApiEndpoints => "fn print_rest_api_endpoints(code_input: String) -> String: prints a JSON schema of the REST API endpoints of the given backend code."@,
        }
    }
}

/// The content of the system message built from a template and an input:
/// the template's instruction text, the fixed function-printer directive,
/// and the input substituted as the function's argument.
pub open spec fn spec_extended_content(template: PromptTemplate, func_input: Seq<char>) -> Seq<
    char,
> {
    "FUNCTION: "@ + template.spec_text()
        + "\n  INSTRUCTION: You are a function printer. You ONLY print the results of functions.\n  Nothing else. No commentary. Here is the input to the function: "@
        + func_input + ".\n  Print out what the function will return."@
}

/// Wrap a prompt template and its input into the one system-role message
/// that is sent, alone, as the full conversation of an LLM call.
pub fn extend_ai_function(template: PromptTemplate, func_input: &str) -> (msg: Message)
    ensures
        msg.role@ == "system"@,
        msg.content@ == spec_extended_content(template, func_input@),
{
    let mut content = String::from_str("FUNCTION: ");
    content.append(template.text());
    content.append(
        "\n  INSTRUCTION: You are a function printer. You ONLY print the results of functions.\n  Nothing else. No commentary. Here is the input to the function: ",
    );
    content.append(func_input);
    content.append(".\n  Print out what the function will return.");
    Message { role: String::from_str("system"), content }
}

} // verus!
