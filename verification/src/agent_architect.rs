//! The solutions-architect agent: derives the project scope from the
//! project description, and the external URLs the project will need.

use vstd::prelude::*;
use vstd::string::StringExecFns;
use crate::agent_basic::{AgentState, BasicAgent};
use crate::agent_traits::{evolves_to, FactSheet, ProjectScope};
use crate::ai_functions::PromptTemplate;
use crate::error::PipelineError;
use crate::json::{
    decode_project_scope, decode_string_list, encode_project_scope, spec_decode_scope,
    spec_decode_string_list, spec_encode_scope,
};
use crate::requester::TaskRequest;

verus! {

/// The agent that turns the project description into a project scope and a
/// list of external URLs — asked of the model where the scope requires
/// them, empty otherwise — and then validates the list's reachability.
/// Its steps walk every state of the agent machine in order: `Discovery`
/// derives the scope, `Working` records the URLs, `UnitTesting` reviews
/// them, and the architect finishes.
pub struct AgentSolutionArchitect {
    /// The architect's identity and state machine.
    pub attributes: BasicAgent,
}

impl AgentSolutionArchitect {
    /// Create the architect in its initial `Discovery` state.
    pub fn new() -> (agent: AgentSolutionArchitect)
        ensures
            agent.attributes.objective@
                == "Gathers information and design solutions for website development"@,
            agent.attributes.position@ == "Solutions Architect"@,
            agent.attributes.state == AgentState::Discovery,
            agent.attributes.memory@.len() == 0,
    {
        AgentSolutionArchitect {
            attributes: BasicAgent::new(
                String::from_str(
                    "Gathers information and design solutions for website development",
                ),
                String::from_str("Solutions Architect"),
            ),
        }
    }

    /// The architect's identity and state machine.
    pub fn get_attributes_from_agent(&self) -> (r: &BasicAgent)
        ensures
            r == &self.attributes,
    {
        &self.attributes
    }

    /// The logical request of the architect's `Discovery` step: ask for the
    /// project scope of the fact sheet's project description.
    pub fn project_scope_request(&self, factsheet: &FactSheet) -> (r: TaskRequest)
        ensures
            r.wf(),
            r.phase is Pending,
            r.attempts_issued == 0,
            r.message.role@ == "system"@,
            r.message.content@ == crate::ai_functions::spec_extended_content(
                PromptTemplate::PrintProjectScope,
                factsheet.project_description@,
            ),
            r.agent_position@ == self.attributes.position@,
            r.agent_operation@ == "print_project_scope"@,
    {
        TaskRequest::new(
            PromptTemplate::PrintProjectScope,
            factsheet.project_description.as_str(),
            self.attributes.position.clone(),
            String::from_str("print_project_scope"),
        )
    }

    /// Absorb the model's answer to the scope request: the answer is
    /// decoded against the scope grammar and, on success, recorded on the
    /// fact sheet exactly once.  An answer that does not match the grammar
    /// is a fatal decode error and changes nothing.  Completing this first
    /// generation step moves the architect to `Working`, where it
    /// determines the external URLs.
    pub fn record_project_scope(&mut self, factsheet: &mut FactSheet, response: &str) -> (r:
        Result<ProjectScope, PipelineError>)
        requires
            old(self).attributes.state == AgentState::Discovery,
            old(factsheet).project_scope is None,
        ensures
            evolves_to(*old(factsheet), *final(factsheet)),
            final(self).attributes.objective == old(self).attributes.objective,
            final(self).attributes.position == old(self).attributes.position,
            final(self).attributes.memory == old(self).attributes.memory,
            match r {
                Ok(scope) => {
                    &&& spec_decode_scope(response@) == Some(scope)
                    &&& final(factsheet).project_scope == Some(scope)
                    &&& final(factsheet).project_description == old(
                        factsheet,
                    ).project_description
                    &&& final(factsheet).external_urls == old(factsheet).external_urls
                    &&& final(factsheet).backend_code == old(factsheet).backend_code
                    &&& final(factsheet).api_endpoint_schema == old(
                        factsheet,
                    ).api_endpoint_schema
                    &&& final(self).attributes.state == AgentState::Working
                },
                Err(e) => {
                    &&& e is DecodeFailed
                    &&& spec_decode_scope(response@) is None
                    &&& *final(factsheet) == *old(factsheet)
                    &&& final(self).attributes.state == old(self).attributes.state
                },
            },
    {
        match decode_project_scope(response) {
            None => Err(PipelineError::DecodeFailed),
            Some(scope) => {
                factsheet.project_scope = Some(scope);
                self.attributes.update_state(AgentState::Working);
                Ok(scope)
            },
        }
    }

    /// The logical request of the architect's URL step: ask for the
    /// external URLs of the already-determined project scope.
    pub fn external_urls_request(&self, factsheet: &FactSheet) -> (r: TaskRequest)
        requires
            factsheet.project_scope is Some,
        ensures
            r.wf(),
            r.phase is Pending,
            r.attempts_issued == 0,
            r.message.role@ == "system"@,
            r.message.content@ == crate::ai_functions::spec_extended_content(
                PromptTemplate::PrintSiteUrls,
                spec_encode_scope(factsheet.project_scope->0),
            ),
            r.agent_position@ == self.attributes.position@,
            r.agent_operation@ == "print_site_urls"@,
    {
        let scope = factsheet.project_scope.as_ref().unwrap();
        let context = encode_project_scope(scope);
        TaskRequest::new(
            PromptTemplate::PrintSiteUrls,
            context.as_str(),
            self.attributes.position.clone(),
            String::from_str("print_site_urls"),
        )
    }

    /// Absorb the model's answer to the URL request: the answer is decoded
    /// against the string-list grammar and, on success, recorded on the
    /// fact sheet exactly once — possibly as an empty sequence.  An answer
    /// that does not match the grammar is a fatal decode error and changes
    /// nothing.  Completing this step moves the architect to
    /// `UnitTesting`, where the recorded URLs are validated.
    pub fn record_external_urls(&mut self, factsheet: &mut FactSheet, response: &str) -> (r:
        Result<(), PipelineError>)
        requires
            old(self).attributes.state == AgentState::Working,
            old(factsheet).external_urls is None,
        ensures
            evolves_to(*old(factsheet), *final(factsheet)),
            final(self).attributes.objective == old(self).attributes.objective,
            final(self).attributes.position == old(self).attributes.position,
            final(self).attributes.memory == old(self).attributes.memory,
            match r {
                Ok(_) => {
                    &&& final(factsheet).external_urls matches Some(urls)
                        && spec_decode_string_list(response@) == Some(urls.deep_view())
                    &&& final(factsheet).project_description == old(
                        factsheet,
                    ).project_description
                    &&& final(factsheet).project_scope == old(factsheet).project_scope
                    &&& final(factsheet).backend_code == old(factsheet).backend_code
                    &&& final(factsheet).api_endpoint_schema == old(
                        factsheet,
                    ).api_endpoint_schema
                    &&& final(self).attributes.state == AgentState::UnitTesting
                },
                Err(e) => {
                    &&& e is DecodeFailed
                    &&& spec_decode_string_list(response@) is None
                    &&& *final(factsheet) == *old(factsheet)
                    &&& final(self).attributes.state == old(self).attributes.state
                },
            },
    {
        match decode_string_list(response) {
            None => Err(PipelineError::DecodeFailed),
            Some(urls) => {
                factsheet.external_urls = Some(urls);
                self.attributes.update_state(AgentState::UnitTesting);
                Ok(())
            },
        }
    }

    /// Record that the scope needs no external URLs: the URL list is set
    /// exactly once to the empty sequence, without an LLM call, and the
    /// architect passes through the same `Working` → `UnitTesting` step as
    /// when URLs are requested.
    pub fn record_no_external_urls(&mut self, factsheet: &mut FactSheet)
        requires
            old(self).attributes.state == AgentState::Working,
            old(factsheet).external_urls is None,
            old(factsheet).project_scope matches Some(scope) && !scope.is_external_urls_required,
        ensures
            evolves_to(*old(factsheet), *final(factsheet)),
            final(self).attributes.objective == old(self).attributes.objective,
            final(self).attributes.position == old(self).attributes.position,
            final(self).attributes.memory == old(self).attributes.memory,
            final(factsheet).external_urls matches Some(urls) && urls@.len() == 0,
            final(factsheet).project_description == old(factsheet).project_description,
            final(factsheet).project_scope == old(factsheet).project_scope,
            final(factsheet).backend_code == old(factsheet).backend_code,
            final(factsheet).api_endpoint_schema == old(factsheet).api_endpoint_schema,
            final(self).attributes.state == AgentState::UnitTesting,
    {
        factsheet.external_urls = Some(Vec::new());
        self.attributes.update_state(AgentState::UnitTesting);
    }

    /// The architect's `UnitTesting` step: validate the recorded URLs
    /// against the external reachability check, one verdict per URL, and
    /// return how many did not answer.  The URL list is recorded exactly
    /// once, so unreachable entries are reported to the operator rather
    /// than removed, and the architect finishes either way.
    pub fn review_external_urls(&mut self, factsheet: &FactSheet, reachable: &Vec<bool>) -> (
        unreachable: usize)
        requires
            old(self).attributes.state == AgentState::UnitTesting,
            factsheet.external_urls matches Some(urls) && reachable@.len() == urls@.len(),
        ensures
            unreachable == count_unreachable(reachable@),
            final(self).attributes.objective == old(self).attributes.objective,
            final(self).attributes.position == old(self).attributes.position,
            final(self).attributes.memory == old(self).attributes.memory,
            final(self).attributes.state == AgentState::Finished,
    {
        let mut count: usize = 0;
        let mut i: usize = 0;
        while i < reachable.len()
            invariant
                i <= reachable@.len(),
                count <= i,
                count_unreachable(reachable@) == count + count_unreachable_from(
                    reachable@,
                    i as int,
                ),
            decreases reachable@.len() - i,
        {
            if !reachable[i] {
                count = count + 1;
            }
            i = i + 1;
        }
        self.attributes.update_state(AgentState::Finished);
        count
    }
}

/// How many verdicts from index `i` on report an unreachable URL.
pub open spec fn count_unreachable_from(reachable: Seq<bool>, i: int) -> nat
    decreases reachable.len() - i,
{
    if 0 <= i < reachable.len() {
        (if reachable[i] {
            0nat
        } else {
            1nat
        }) + count_unreachable_from(reachable, i + 1)
    } else {
        0
    }
}

/// How many verdicts report an unreachable URL.
pub open spec fn count_unreachable(reachable: Seq<bool>) -> nat {
    count_unreachable_from(reachable, 0)
}

} // verus!
