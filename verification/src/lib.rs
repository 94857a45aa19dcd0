//! Verified kernel of an agent subcontracting swarm: static contract auditing,
//! signed task receipts, an identity registry, a balance ledger, an optimistic
//! escrow with challenge windows, a reverse auction, receipt verification,
//! sealed key stores, and the request framing of the dashboard server.

pub mod agent;
pub mod auction;
pub mod auditor;
pub mod error;
pub mod escrow;
pub mod http;
pub mod keystore;
pub mod primitives;
pub mod receipt;
pub mod registry;
pub mod settlement;
pub mod text;
pub mod types;
pub mod validation;
