//! The managing agent: owns the fact sheet and the roster of specialized
//! agents, and decides which of them the run hands the fact sheet to next.
//!
//! Agents run strictly in sequence, each to completion, over exclusive
//! mutable access to the one fact sheet; any fatal error an agent step
//! returns terminates the whole run.  The unverified shell drives the
//! loop: it asks [`ManagingAgent::next_stage`] whose turn it is, runs that
//! agent's steps, and stops on the first fatal error.

use vstd::prelude::*;
use vstd::string::StringExecFns;
use crate::agent_architect::AgentSolutionArchitect;
use crate::agent_backend::AgentBackendDeveloper;
use crate::agent_basic::{AgentState, BasicAgent};
use crate::agent_traits::{evolves_to, FactSheet, RouteObject};
use crate::ai_functions::{spec_extended_content, PromptTemplate};
use crate::requester::TaskRequest;

verus! {

/// Whose turn it is in the pipeline: the stages run in this order, each
/// agent to completion, and the run is complete once the API schema is
/// recorded.
#[derive(Clone, Copy, Debug, PartialEq, Eq, Structural)]
pub enum PipelineStage {
    /// The architect has not finished deriving scope and URLs.
    Architecture,
    /// The backend developer has not finished the build-fix loop.
    BackendDevelopment,
    /// The endpoint schema has not been extracted yet.
    SchemaExtraction,
    /// Every stage is complete.
    Complete,
}

/// The agent that owns the fact sheet and sequences the others.
pub struct ManagingAgent {
    /// The manager's identity.
    pub attributes: BasicAgent,
    /// The single shared project-state record of the run.
    pub factsheet: FactSheet,
    /// The first specialized agent of the roster.
    pub architect: AgentSolutionArchitect,
    /// The second specialized agent of the roster.
    pub backend_developer: AgentBackendDeveloper,
}

/// The stage owed next: the architect until it finishes, then the backend
/// developer until it finishes, then schema extraction until the schema is
/// recorded.
pub open spec fn spec_next_stage(agent: ManagingAgent) -> PipelineStage {
    if agent.architect.attributes.state != AgentState::Finished {
        PipelineStage::Architecture
    } else if agent.backend_developer.attributes.state != AgentState::Finished {
        PipelineStage::BackendDevelopment
    } else if agent.factsheet.api_endpoint_schema is None {
        PipelineStage::SchemaExtraction
    } else {
        PipelineStage::Complete
    }
}

impl ManagingAgent {
    /// The logical request that restates the user's raw answer as the
    /// one-line project goal the fact sheet is then built from.
    pub fn goal_request(user_request: &str) -> (r: TaskRequest)
        ensures
            r.wf(),
            r.phase is Pending,
            r.attempts_issued == 0,
            r.message.role@ == "system"@,
            r.message.content@ == spec_extended_content(
                PromptTemplate::ConvertUserInputToGoal,
                user_request@,
            ),
            r.agent_position@ == "Project Manager"@,
            r.agent_operation@ == "convert_user_input_to_goal"@,
    {
        TaskRequest::new(
            PromptTemplate::ConvertUserInputToGoal,
            user_request,
            String::from_str("Project Manager"),
            String::from_str("convert_user_input_to_goal"),
        )
    }

    /// Start a run: the fact sheet holds the project description verbatim
    /// and nothing else, and both specialized agents stand in `Discovery`.
    pub fn new(project_description: String) -> (agent: ManagingAgent)
        ensures
            agent.factsheet.project_description@ == project_description@,
            agent.factsheet.project_scope is None,
            agent.factsheet.external_urls is None,
            agent.factsheet.backend_code is None,
            agent.factsheet.api_endpoint_schema is None,
            agent.architect.attributes.state == AgentState::Discovery,
            agent.backend_developer.attributes.state == AgentState::Discovery,
            agent.backend_developer.bug_count == 0,
            agent.backend_developer.bug_errors is None,
            agent.attributes.position@ == "Project Manager"@,
            spec_next_stage(agent) == PipelineStage::Architecture,
    {
        ManagingAgent {
            attributes: BasicAgent::new(
                String::from_str(
                    "Manage agents who are building an excellent website for the user",
                ),
                String::from_str("Project Manager"),
            ),
            factsheet: FactSheet::new(project_description),
            architect: AgentSolutionArchitect::new(),
            backend_developer: AgentBackendDeveloper::new(),
        }
    }

    /// Decide whose turn it is, from the agents' states and the fact
    /// sheet alone.
    pub fn next_stage(&self) -> (s: PipelineStage)
        ensures
            s == spec_next_stage(*self),
    {
        match self.architect.attributes.state {
            AgentState::Finished => {},
            _ => {
                return PipelineStage::Architecture;
            },
        }
        match self.backend_developer.attributes.state {
            AgentState::Finished => {},
            _ => {
                return PipelineStage::BackendDevelopment;
            },
        }
        if self.factsheet.api_endpoint_schema.is_none() {
            PipelineStage::SchemaExtraction
        } else {
            PipelineStage::Complete
        }
    }

    /// Record the extracted endpoint schema, exactly once, completing the
    /// run.
    pub fn record_api_endpoint_schema(&mut self, routes: Vec<RouteObject>)
        requires
            old(self).factsheet.api_endpoint_schema is None,
        ensures
            evolves_to(old(self).factsheet, final(self).factsheet),
            final(self).factsheet.api_endpoint_schema == Some(routes),
            final(self).factsheet.project_description == old(self).factsheet.project_description,
            final(self).factsheet.project_scope == old(self).factsheet.project_scope,
            final(self).factsheet.external_urls == old(self).factsheet.external_urls,
            final(self).factsheet.backend_code == old(self).factsheet.backend_code,
            final(self).architect == old(self).architect,
            final(self).backend_developer == old(self).backend_developer,
            final(self).attributes == old(self).attributes,
    {
        self.factsheet.api_endpoint_schema = Some(routes);
    }
}

} // verus!
