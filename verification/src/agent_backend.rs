//! The backend-developer agent: generates backend code from a template,
//! improves or repairs it, and drives a bounded build-fix loop over the
//! external build tool.
//!
//! Each step of the loop is decided here: which prompt to issue next, what
//! a build outcome does to the repair budget, and when the run must abort.
//! The unverified shell reads the code template, performs the LLM and
//! build-tool calls, asks the human safety gate, and hands every result
//! back as a plain value.

use vstd::prelude::*;
use vstd::string::StringExecFns;
use crate::agent_basic::{AgentState, BasicAgent};
use crate::agent_traits::{evolves_to, spec_render_factsheet, FactSheet};
use crate::ai_functions::{spec_extended_content, PromptTemplate};
use crate::error::PipelineError;
use crate::requester::TaskRequest;

verus! {

/// What the external build tool reported for one build of the generated
/// project: success, or its diagnostic text captured verbatim.
pub enum BuildOutcome {
    /// The build exited successfully.
    Success,
    /// The build failed; the captured standard-error text.
    Failure(String),
}

/// The next piece of outside work the backend developer asks the shell to
/// perform, decided purely from the agent's state.
#[derive(Clone, Copy, Debug, PartialEq, Eq, Structural)]
pub enum DeveloperAction {
    /// Read the code template and issue the initial generation prompt.
    GenerateInitialCode,
    /// Issue the refinement prompt over the current code and fact sheet.
    ImproveCode,
    /// Issue the repair prompt over the current code and captured bugs.
    FixCode,
    /// Ask the safety gate, then run the build tool.
    TestBuild,
    /// The agent is finished; the orchestrator proceeds.
    Done,
}

/// How many consecutive build failures the repair budget forgives before
/// one more is fatal.
pub const BUG_BUDGET: u8 = 2;

/// The agent that writes, improves and repairs the backend code.
pub struct AgentBackendDeveloper {
    /// The developer's identity and state machine.
    pub attributes: BasicAgent,
    /// The diagnostic text of the last failed build, if any.
    pub bug_errors: Option<String>,
    /// How many consecutive builds have failed since the last success.
    pub bug_count: u8,
}

/// The piece of outside work owed in each state: generation in
/// `Discovery`; improvement in `Working` with a clean slate, repair in
/// `Working` with captured bugs; the safety gate and a build in
/// `UnitTesting`; nothing once `Finished`.
pub open spec fn spec_next_action(agent: AgentBackendDeveloper) -> DeveloperAction {
    match agent.attributes.state {
        AgentState::Discovery => DeveloperAction::GenerateInitialCode,
        AgentState::Working => if agent.bug_count == 0 {
            DeveloperAction::ImproveCode
        } else {
            DeveloperAction::FixCode
        },
        AgentState::UnitTesting => DeveloperAction::TestBuild,
        AgentState::Finished => DeveloperAction::Done,
    }
}

/// The context of the initial generation prompt: the code template and the
/// project description.
pub open spec fn spec_initial_context(template: Seq<char>, description: Seq<char>) -> Seq<char> {
    "CODE_TEMPLATE: "@ + template + "\nPROJECT_DESCRIPTION: "@ + description + "\n"@
}

/// The context of the refinement prompt: the current backend code and the
/// rendered fact sheet.
pub open spec fn spec_improve_context(code: Seq<char>, factsheet: FactSheet) -> Seq<char> {
    "CODE_TEMPLATE: "@ + code + "\nPROJECT_DESCRIPTION: "@ + spec_render_factsheet(factsheet)
        + "\n"@
}

/// The context of the repair prompt: the broken code and the captured
/// diagnostics, with the code-only directive restated.
pub open spec fn spec_fix_context(code: Seq<char>, errors: Seq<char>) -> Seq<char> {
    "BROKEN_CODE: "@ + code + "\nERROR_BUGS: "@ + errors
        + "\nTHIS FUNCTION ONLY OUTPUTS CODE. JUST OUTPUT THE CODE.\n"@
}

/// The context of the endpoint-extraction prompt: the final backend code.
pub open spec fn spec_extract_context(code: Seq<char>) -> Seq<char> {
    "CODE_INPUT: "@ + code
}

impl AgentBackendDeveloper {
    /// Create the backend developer in its initial `Discovery` state, with
    /// no captured bugs and an untouched repair budget.
    pub fn new() -> (agent: AgentBackendDeveloper)
        ensures
            agent.attributes.objective@
                == "Develops backend code for webserver and json database"@,
            agent.attributes.position@ == "Backend Developer"@,
            agent.attributes.state == AgentState::Discovery,
            agent.attributes.memory@.len() == 0,
            agent.bug_errors is None,
            agent.bug_count == 0,
    {
        AgentBackendDeveloper {
            attributes: BasicAgent::new(
                String::from_str("Develops backend code for webserver and json database"),
                String::from_str("Backend Developer"),
            ),
            bug_errors: None,
            bug_count: 0,
        }
    }

    /// The developer's identity and state machine.
    pub fn get_attributes_from_agent(&self) -> (r: &BasicAgent)
        ensures
            r == &self.attributes,
    {
        &self.attributes
    }

    /// Decide the next piece of outside work from the agent's state alone.
    pub fn next_action(&self) -> (a: DeveloperAction)
        ensures
            a == spec_next_action(*self),
    {
        match self.attributes.state {
            AgentState::Discovery => DeveloperAction::GenerateInitialCode,
            AgentState::Working => if self.bug_count == 0 {
                DeveloperAction::ImproveCode
            } else {
                DeveloperAction::FixCode
            },
            AgentState::UnitTesting => DeveloperAction::TestBuild,
            AgentState::Finished => DeveloperAction::Done,
        }
    }

    /// The logical request of the `Discovery` step: generate first-draft
    /// backend code from the code template and the project description.
    pub fn initial_code_request(&self, code_template: &str, factsheet: &FactSheet) -> (r:
        TaskRequest)
        ensures
            r.wf(),
            r.phase is Pending,
            r.attempts_issued == 0,
            r.message.role@ == "system"@,
            r.message.content@ == spec_extended_content(
                PromptTemplate::PrintBackendWebserverCode,
                spec_initial_context(code_template@, factsheet.project_description@),
            ),
            r.agent_position@ == self.attributes.position@,
            r.agent_operation@ == "print_backend_webserver_code"@,
    {
        let mut context = String::from_str("CODE_TEMPLATE: ");
        context.append(code_template);
        context.append("\nPROJECT_DESCRIPTION: ");
        context.append(factsheet.project_description.as_str());
        context.append("\n");
        TaskRequest::new(
            PromptTemplate::PrintBackendWebserverCode,
            context.as_str(),
            self.attributes.position.clone(),
            String::from_str("print_backend_webserver_code"),
        )
    }

    /// The logical request of a clean `Working` step: improve the current
    /// backend code against the whole fact sheet.
    pub fn improved_code_request(&self, factsheet: &FactSheet) -> (r: TaskRequest)
        requires
            factsheet.backend_code is Some,
        ensures
            r.wf(),
            r.phase is Pending,
            r.attempts_issued == 0,
            r.message.role@ == "system"@,
            r.message.content@ == spec_extended_content(
                PromptTemplate::PrintImprovedWebserverCode,
                spec_improve_context(factsheet.backend_code->0@, *factsheet),
            ),
            r.agent_position@ == self.attributes.position@,
            r.agent_operation@ == "print_improved_webserver_code"@,
    {
        let rendered = factsheet.render();
        let mut context = String::from_str("CODE_TEMPLATE: ");
        context.append(factsheet.backend_code.as_ref().unwrap().as_str());
        context.append("\nPROJECT_DESCRIPTION: ");
        context.append(rendered.as_str());
        context.append("\n");
        TaskRequest::new(
            PromptTemplate::PrintImprovedWebserverCode,
            context.as_str(),
            self.attributes.position.clone(),
            String::from_str("print_improved_webserver_code"),
        )
    }

    /// The logical request of a `Working` step with captured bugs: repair
    /// the current backend code from the build diagnostics.
    pub fn fix_code_request(&self, factsheet: &FactSheet) -> (r: TaskRequest)
        requires
            factsheet.backend_code is Some,
            self.bug_errors is Some,
        ensures
            r.wf(),
            r.phase is Pending,
            r.attempts_issued == 0,
            r.message.role@ == "system"@,
            r.message.content@ == spec_extended_content(
                PromptTemplate::PrintFixedCode,
                spec_fix_context(factsheet.backend_code->0@, self.bug_errors->0@),
            ),
            r.agent_position@ == self.attributes.position@,
            r.agent_operation@ == "print_fixed_code"@,
    {
        let mut context = String::from_str("BROKEN_CODE: ");
        context.append(factsheet.backend_code.as_ref().unwrap().as_str());
        context.append("\nERROR_BUGS: ");
        context.append(self.bug_errors.as_ref().unwrap().as_str());
        context.append("\nTHIS FUNCTION ONLY OUTPUTS CODE. JUST OUTPUT THE CODE.\n");
        TaskRequest::new(
            PromptTemplate::PrintFixedCode,
            context.as_str(),
            self.attributes.position.clone(),
            String::from_str("print_fixed_code"),
        )
    }

    /// The logical request of the stateless extraction capability: list
    /// the REST API endpoints of the final backend code.
    pub fn extract_rest_api_endpoints_request(&self, backend_code: &str) -> (r: TaskRequest)
        ensures
            r.wf(),
            r.phase is Pending,
            r.attempts_issued == 0,
            r.message.role@ == "system"@,
            r.message.content@ == spec_extended_content(
                PromptTemplate::PrintRestApiEndpoints,
                spec_extract_context(backend_code@),
            ),
            r.agent_position@ == self.attributes.position@,
            r.agent_operation@ == "print_rest_api_endpoints"@,
    {
        let mut context = String::from_str("CODE_INPUT: ");
        context.append(backend_code);
        TaskRequest::new(
            PromptTemplate::PrintRestApiEndpoints,
            context.as_str(),
            self.attributes.position.clone(),
            String::from_str("print_rest_api_endpoints"),
        )
    }

    /// Record newly generated code: the fact sheet's backend code is set
    /// or overwritten with exactly the model's answer, and the machine
    /// advances — a first generation moves the agent from `Discovery` to
    /// `Working`, a rewrite moves it from `Working` to `UnitTesting`.  The
    /// shell persists the same text before the next build starts.
    pub fn record_generated_code(&mut self, factsheet: &mut FactSheet, code: String)
        requires
            old(self).attributes.state == AgentState::Discovery || old(self).attributes.state
                == AgentState::Working,
        ensures
            evolves_to(*old(factsheet), *final(factsheet)),
            final(factsheet).backend_code == Some(code),
            final(factsheet).project_description == old(factsheet).project_description,
            final(factsheet).project_scope == old(factsheet).project_scope,
            final(factsheet).external_urls == old(factsheet).external_urls,
            final(factsheet).api_endpoint_schema == old(factsheet).api_endpoint_schema,
            final(self).attributes.state == (if old(self).attributes.state
                == AgentState::Discovery {
                AgentState::Working
            } else {
                AgentState::UnitTesting
            }),
            final(self).attributes.objective == old(self).attributes.objective,
            final(self).attributes.position == old(self).attributes.position,
            final(self).attributes.memory == old(self).attributes.memory,
            final(self).bug_errors == old(self).bug_errors,
            final(self).bug_count == old(self).bug_count,
    {
        factsheet.backend_code = Some(code);
        match self.attributes.state {
            AgentState::Discovery => self.attributes.update_state(AgentState::Working),
            _ => self.attributes.update_state(AgentState::UnitTesting),
        }
    }

    /// Decide the human safety gate: approval lets the build proceed, and
    /// a declined gate is a fatal abort of the whole run.
    pub fn safety_gate(&self, approved: bool) -> (r: Result<(), PipelineError>)
        ensures
            r is Ok <==> approved,
            !approved ==> (r matches Err(e) && e is SafetyRejected),
    {
        if approved {
            Ok(())
        } else {
            Err(PipelineError::SafetyRejected)
        }
    }

    /// Absorb one build outcome in `UnitTesting`.
    ///
    /// A successful build resets the bug count to exactly zero and
    /// finishes the agent.  A failed build captures the diagnostics and
    /// increments the bug count by exactly one; the agent returns to
    /// `Working` for a repair attempt, unless this is the third
    /// consecutive failure, which exhausts the repair budget and aborts
    /// the run — and only then does the step abort.
    pub fn record_build_result(&mut self, outcome: BuildOutcome) -> (r: Result<
        (),
        PipelineError,
    >)
        requires
            old(self).attributes.state == AgentState::UnitTesting,
            old(self).bug_count <= BUG_BUDGET,
        ensures
            final(self).attributes.objective == old(self).attributes.objective,
            final(self).attributes.position == old(self).attributes.position,
            final(self).attributes.memory == old(self).attributes.memory,
            match outcome {
                BuildOutcome::Success => {
                    &&& r is Ok
                    &&& final(self).bug_count == 0
                    &&& final(self).bug_errors == old(self).bug_errors
                    &&& final(self).attributes.state == AgentState::Finished
                },
                BuildOutcome::Failure(errors) => {
                    &&& final(self).bug_count == old(self).bug_count + 1
                    &&& final(self).bug_errors == Some(errors)
                    &&& if old(self).bug_count == BUG_BUDGET {
                        r matches Err(e) && e is TooManyBugs && final(self).attributes.state
                            == old(self).attributes.state
                    } else {
                        r is Ok && final(self).attributes.state == AgentState::Working
                    }
                },
            },
            r is Err <==> (outcome matches BuildOutcome::Failure(_) && old(self).bug_count
                == BUG_BUDGET),
    {
        match outcome {
            BuildOutcome::Success => {
                self.bug_count = 0;
                self.attributes.update_state(AgentState::Finished);
                Ok(())
            },
            BuildOutcome::Failure(errors) => {
                self.bug_count = self.bug_count + 1;
                self.bug_errors = Some(errors);
                if self.bug_count > BUG_BUDGET {
                    Err(PipelineError::TooManyBugs)
                } else {
                    self.attributes.update_state(AgentState::Working);
                    Ok(())
                }
            },
        }
    }
}

} // verus!
