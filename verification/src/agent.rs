//! What the agent runtime tells about sessions and turns.
use crate::event::copy_text;
use vstd::prelude::*;

verus! {

/// The session of an agent, by the actor that owns it.
#[derive(Debug, PartialEq, Eq)]
pub struct AgentSessionDiagnosticContext {
    pub actor_id: String,
    pub session_id: String,
}

impl Clone for AgentSessionDiagnosticContext {
    fn clone(&self) -> (copy: Self)
        ensures
            copy == *self,
    {
        AgentSessionDiagnosticContext {
            actor_id: self.actor_id.clone(),
            session_id: self.session_id.clone(),
        }
    }
}

impl AgentSessionDiagnosticContext {
    /// Both name the same session.
    pub open spec fn is(self, other: Self) -> bool {
        self.actor_id@ == other.actor_id@ && self.session_id@ == other.session_id@
    }

    pub fn same(&self, other: &Self) -> (same: bool)
        ensures
            same == self.is(*other),
    {
        self.actor_id == other.actor_id && self.session_id == other.session_id
    }
}

/// What is known of a session.
#[derive(Debug, PartialEq, Eq)]
pub struct AgentSessionDiagnosticMetadata {
    pub context: AgentSessionDiagnosticContext,
    pub provider: String,
    pub generation: Option<u64>,
    pub requested_model: String,
    pub requested_effort: Option<String>,
    pub effective_model: Option<String>,
    pub effective_effort: Option<String>,
}

impl Clone for AgentSessionDiagnosticMetadata {
    fn clone(&self) -> (copy: Self)
        ensures
            copy == *self,
    {
        AgentSessionDiagnosticMetadata {
            context: self.context.clone(),
            provider: self.provider.clone(),
            generation: self.generation,
            requested_model: self.requested_model.clone(),
            requested_effort: copy_text(&self.requested_effort),
            effective_model: copy_text(&self.effective_model),
            effective_effort: copy_text(&self.effective_effort),
        }
    }
}

/// Which turn of which act in which session.
#[derive(Debug, PartialEq, Eq)]
pub struct AgentTurnDiagnosticIdentity {
    pub context: AgentSessionDiagnosticContext,
    pub act_id: String,
    pub turn_id: String,
}

impl Clone for AgentTurnDiagnosticIdentity {
    fn clone(&self) -> (copy: Self)
        ensures
            copy == *self,
    {
        AgentTurnDiagnosticIdentity {
            context: self.context.clone(),
            act_id: self.act_id.clone(),
            turn_id: self.turn_id.clone(),
        }
    }
}

impl AgentTurnDiagnosticIdentity {
    /// Both name the same turn.
    pub open spec fn is(self, other: Self) -> bool {
        &&& self.context.is(other.context)
        &&& self.act_id@ == other.act_id@
        &&& self.turn_id@ == other.turn_id@
    }

    pub fn same(&self, other: &Self) -> (same: bool)
        ensures
            same == self.is(*other),
    {
        self.context.same(&other.context) && self.act_id == other.act_id && self.turn_id
            == other.turn_id
    }
}

/// What is known of a turn.
#[derive(Debug, PartialEq, Eq)]
pub struct AgentTurnDiagnosticMetadata {
    pub identity: AgentTurnDiagnosticIdentity,
    pub provider: String,
    pub session_generation: u64,
    pub effective_model: String,
    pub effective_effort: Option<String>,
}

/// What became of the prompt of a turn.
#[derive(Clone, Copy, Debug, PartialEq, Eq, Structural)]
pub enum AgentTurnDiagnosticSettlement {
    NotSubmitted,
    Authoritative,
    Unknown,
}

/// How a turn ended.
#[derive(Clone, Copy, Debug, PartialEq, Eq, Structural)]
pub enum AgentTurnDiagnosticOutcome {
    Completed,
    Cancelled,
    Failed,
}

} // verus!
