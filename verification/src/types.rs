//! Identifiers, capabilities, task states and task specifications.
use crate::primitives::{is_uuid_v4, max_utc_micros, new_uuid_v4, now_unix_micros};
use vstd::prelude::*;

verus! {

/// A task's identifier: the 128-bit value of a UUID.
pub type TaskId = u128;

/// An agent's name.
pub type AgentId = String;

/// An Ed25519 verifying key, hex-encoded.
pub type PublicKeyHex = String;

/// An Ed25519 signature, hex-encoded.
pub type SignatureHex = String;

/// A SHA-256 digest, hex-encoded.
pub type ExecutionDigest = String;

/// An instant, in microseconds since the Unix epoch.
pub type Timestamp = i64;

/// What an agent can do.
#[derive(Debug, Clone, Copy, PartialEq, Eq, Structural)]
pub enum AgentCapability {
    SmartContractAuditor,
    SecurityFuzzer,
    FormalVerifier,
    GasOptimizer,
}

/// Where a task stands in its life cycle.
#[derive(Debug, Clone, Copy, PartialEq, Eq, Structural)]
pub enum TaskStatus {
    PendingAuction,
    Assigned,
    Executing,
    AwaitingOptimisticValidation,
    Disputed,
    Settled,
    Slashed,
}

/// A request for work, as a delegator broadcasts it.
#[derive(Debug, Clone)]
pub struct TaskSpec {
    pub id: TaskId,
    pub delegator: AgentId,
    pub delegator_pubkey: PublicKeyHex,
    pub capability_required: AgentCapability,
    pub description: String,
    pub input_payload: String,
    pub max_bounty: u64,
    pub max_execution_seconds: u64,
    pub challenge_window_seconds: u64,
    pub created_at: Timestamp,
}

impl TaskSpec {
    /// A new task with a fresh random identifier, created now, allowing 30
    /// seconds of execution and a 15-second challenge window.
    pub fn new(
        delegator: &str,
        delegator_pubkey: &str,
        capability_required: AgentCapability,
        description: &str,
        input_payload: &str,
        max_bounty: u64,
    ) -> (r: Self)
        ensures
            r.delegator@ == delegator@,
            r.delegator_pubkey@ == delegator_pubkey@,
            r.capability_required == capability_required,
            r.description@ == description@,
            r.input_payload@ == input_payload@,
            r.max_bounty == max_bounty,
            r.max_execution_seconds == 30,
            r.challenge_window_seconds == 15,
            is_uuid_v4(r.id),
            0 <= r.created_at <= max_utc_micros(),
    {
        TaskSpec {
            id: new_uuid_v4(),
            delegator: String::from_str(delegator),
            delegator_pubkey: String::from_str(delegator_pubkey),
            capability_required,
            description: String::from_str(description),
            input_payload: String::from_str(input_payload),
            max_bounty,
            max_execution_seconds: 30,
            challenge_window_seconds: 15,
            created_at: now_unix_micros(),
        }
    }
}

} // verus!
