//! A node of the swarm as it advertises itself.
use crate::types::{AgentCapability, AgentId, PublicKeyHex};
use vstd::prelude::*;

verus! {

/// An agent, its key and what it can do.
#[derive(Debug, Clone)]
pub struct SwarmAgentNode {
    pub id: AgentId,
    pub public_key: PublicKeyHex,
    pub capabilities: Vec<AgentCapability>,
    pub reputation_score: u32,
}

impl SwarmAgentNode {
    /// A node with the base reputation of 80.
    pub fn new(id: &str, public_key: &str, capabilities: Vec<AgentCapability>) -> (r: Self)
        ensures
            r.id@ == id@,
            r.public_key@ == public_key@,
            r.capabilities@ == capabilities@,
            r.reputation_score == 80,
    {
        SwarmAgentNode {
            id: String::from_str(id),
            public_key: String::from_str(public_key),
            capabilities,
            reputation_score: 80,
        }
    }
}

} // verus!
