//! Governance engine for a single residential community: an ownership
//! registry, a candidacy ledger, a per-role vote tally with double-vote
//! prevention, and a finalization protocol that commits a new council
//! atomically and resets the election cycle.
//!
//! Identity resolution, transport, and durable storage are collaborators
//! outside this crate; every operation takes the caller's identity as a
//! plain value and works on an explicit [`state::GovernanceState`].

pub mod types;
pub mod state;
pub mod registry;
pub mod candidacy;
pub mod winner;
pub mod election;
pub mod finalize;
pub mod laws;
