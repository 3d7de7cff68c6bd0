//! The request/retry contract for talking to the LLM.
//!
//! A logical request wraps a prompt template and an input into a single
//! system message and tracks the outcomes of the network calls made for it.
//! The retry policy is fixed: on a transport or service failure the
//! identical request is retried exactly once; if the retry also fails, the
//! failure is fatal for the calling agent step.  The unverified shell
//! performs the network call itself while the request is pending and hands
//! the outcome back to [`TaskRequest::record_outcome`].

use vstd::prelude::*;
use crate::ai_functions::{extend_ai_function, spec_extended_content, PromptTemplate};
use crate::error::PipelineError;
use crate::llm::Message;

verus! {

/// Where a logical request stands after the calls recorded so far.
#[derive(Clone, Debug)]
pub enum RequestPhase {
    /// A further LLM call is owed for this request.
    Pending,
    /// A call returned this text; the request is complete.
    Succeeded(String),
    /// Both the initial attempt and the retry failed; the request is
    /// fatally failed.
    Failed,
}

/// One logical LLM request: the message to send, the identity of the agent
/// making it, and the record of call outcomes.
pub struct TaskRequest {
    /// The single system message sent, alone, as the full conversation of
    /// every call made for this request.
    pub message: Message,
    /// The role name of the requesting agent, for status notifications.
    pub agent_position: String,
    /// The operation label of the request, for status notifications.
    pub agent_operation: String,
    /// How many LLM calls have been issued for this request.
    pub attempts_issued: u8,
    /// Where the request stands.
    pub phase: RequestPhase,
    /// The outcome of each issued call, in order; `true` records a success.
    pub outcomes: Ghost<Seq<bool>>,
}

impl TaskRequest {
    /// The states a request can reach from [`TaskRequest::new`]: one
    /// outcome is recorded per issued call, never more than two calls are
    /// issued, every call before the last was a failure, and the phase
    /// sums the outcomes up — still pending before any success while a
    /// call is owed, succeeded once a call returned text, failed exactly
    /// when both calls failed.
    pub open spec fn wf(&self) -> bool {
        &&& self.outcomes@.len() == self.attempts_issued
        &&& self.attempts_issued <= 2
        &&& forall|i: int|
            0 <= i < self.outcomes@.len() - 1 ==> !self.outcomes@[i]
        &&& match self.phase {
            RequestPhase::Pending => {
                &&& self.attempts_issued <= 1
                &&& forall|i: int| 0 <= i < self.outcomes@.len() ==> !self.outcomes@[i]
            },
            RequestPhase::Succeeded(_) => {
                &&& self.attempts_issued >= 1
                &&& self.outcomes@.last()
            },
            RequestPhase::Failed => {
                &&& self.attempts_issued == 2
                &&& !self.outcomes@[0]
                &&& !self.outcomes@[1]
            },
        }
    }

    /// Open a logical request: build the system message from the template
    /// and the context, with no call issued yet.
    pub fn new(
        template: PromptTemplate,
        msg_context: &str,
        agent_position: String,
        agent_operation: String,
    ) -> (r: TaskRequest)
        ensures
            r.wf(),
            r.phase is Pending,
            r.attempts_issued == 0,
            r.message.role@ == "system"@,
            r.message.content@ == spec_extended_content(template, msg_context@),
            r.agent_position@ == agent_position@,
            r.agent_operation@ == agent_operation@,
    {
        TaskRequest {
            message: extend_ai_function(template, msg_context),
            agent_position,
            agent_operation,
            attempts_issued: 0,
            phase: RequestPhase::Pending,
            outcomes: Ghost(Seq::empty()),
        }
    }

    /// Whether a further LLM call is owed for this request.
    pub fn is_pending(&self) -> (r: bool)
        ensures
            r == (self.phase is Pending),
    {
        matches!(self.phase, RequestPhase::Pending)
    }

    /// Record the outcome of one issued call: the returned text on
    /// success, or `None` for a transport or service failure.  A first
    /// failure leaves the request pending, so the identical message is
    /// retried exactly once; a second failure is final.
    pub fn record_outcome(&mut self, outcome: Option<String>)
        requires
            old(self).wf(),
            old(self).phase is Pending,
        ensures
            final(self).wf(),
            final(self).attempts_issued == old(self).attempts_issued + 1,
            final(self).outcomes@ == old(self).outcomes@.push(outcome is Some),
            final(self).message == old(self).message,
            final(self).agent_position == old(self).agent_position,
            final(self).agent_operation == old(self).agent_operation,
            match outcome {
                Some(text) => final(self).phase matches RequestPhase::Succeeded(t) && t == text,
                None => if old(self).attempts_issued == 0 {
                    final(self).phase is Pending
                } else {
                    final(self).phase is Failed
                },
            },
    {
        self.outcomes = Ghost(self.outcomes@.push(outcome is Some));
        self.attempts_issued = self.attempts_issued + 1;
        match outcome {
            Some(text) => {
                self.phase = RequestPhase::Succeeded(text);
            },
            None => {
                if self.attempts_issued >= 2 {
                    self.phase = RequestPhase::Failed;
                }
            },
        }
    }

    /// Close the request: the returned text, or the fatal transport error
    /// that the calling agent step propagates.
    pub fn into_result(self) -> (r: Result<String, PipelineError>)
        requires
            !(self.phase is Pending),
        ensures
            match self.phase {
                RequestPhase::Succeeded(text) => r matches Ok(t) && t == text,
                RequestPhase::Failed => r matches Err(e) && e is TransportFailed,
                RequestPhase::Pending => false,
            },
    {
        match self.phase {
            RequestPhase::Succeeded(text) => Ok(text),
            _ => Err(PipelineError::TransportFailed),
        }
    }
}

/// At most two LLM calls are ever issued for one logical request — the
/// initial attempt and a single retry — and the request is fatally failed
/// exactly when both calls failed; a success always ends it.
pub proof fn lemma_at_most_two_calls(r: TaskRequest)
    requires
        r.wf(),
    ensures
        r.attempts_issued <= 2,
        r.phase is Failed <==> r.outcomes@ =~= seq![false, false],
        r.phase matches RequestPhase::Succeeded(_) ==> r.outcomes@.last(),
{
    if r.outcomes@ =~= seq![false, false] {
        assert(!r.outcomes@[1]);
        match r.phase {
            RequestPhase::Pending => {
                assert(false);
            },
            RequestPhase::Succeeded(_) => {
                assert(r.outcomes@.last() == r.outcomes@[1]);
                assert(false);
            },
            RequestPhase::Failed => {},
        }
    }
}

} // verus!
