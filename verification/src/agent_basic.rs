//! Generic agent identity and the state machine every specialized agent honors.

use vstd::prelude::*;
use crate::llm::Message;

verus! {

/// The four phases an agent moves through while it works on the fact sheet.
///
/// Every agent starts in `Discovery`; `Finished` is terminal for that agent,
/// after which the orchestrator proceeds to the next one.
#[derive(Clone, Copy, Debug, PartialEq, Eq, Structural)]
pub enum AgentState {
    /// The agent has not yet produced its primary artifact.
    Discovery,
    /// The agent is generating or repairing its artifact.
    Working,
    /// The agent is validating its artifact against an external check.
    UnitTesting,
    /// The agent has completed its work.
    Finished,
}

/// Role metadata and conversation memory shared by all specialized agents.
pub struct BasicAgent {
    /// The main objective of the agent; immutable after construction.
    pub objective: String,
    /// The role name of the agent; immutable after construction.
    pub position: String,
    /// The current state of the agent.
    pub state: AgentState,
    /// Conversation history; append-only during a run.
    pub memory: Vec<Message>,
}

impl BasicAgent {
    /// Create an agent in its initial `Discovery` state with empty memory.
    pub fn new(objective: String, position: String) -> (agent: BasicAgent)
        ensures
            agent.objective@ == objective@,
            agent.position@ == position@,
            agent.state == AgentState::Discovery,
            agent.memory@.len() == 0,
    {
        BasicAgent {
            objective,
            position,
            state: AgentState::Discovery,
            memory: Vec::new(),
        }
    }

    /// Move the agent to a new state.
    pub fn update_state(&mut self, new_state: AgentState)
        ensures
            final(self).state == new_state,
            final(self).objective == old(self).objective,
            final(self).position == old(self).position,
            final(self).memory == old(self).memory,
    {
        self.state = new_state;
    }

    /// The agent's objective.
    pub fn get_objective(&self) -> (r: &String)
        ensures
            r@ == self.objective@,
    {
        &self.objective
    }

    /// The agent's role name.
    pub fn get_position(&self) -> (r: &String)
        ensures
            r@ == self.position@,
    {
        &self.position
    }

    /// The agent's current state.
    pub fn get_state(&self) -> (r: &AgentState)
        ensures
            *r == self.state,
    {
        &self.state
    }

    /// The agent's conversation history.
    pub fn get_memory(&self) -> (r: &Vec<Message>)
        ensures
            r@ == self.memory@,
    {
        &self.memory
    }
}

} // verus!
