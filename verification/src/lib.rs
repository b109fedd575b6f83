//! A confidential ballot engine.
//!
//! An election moves through registration and voting phases that an election
//! commission controls.  A voter casts a ballot for a candidate together with a
//! Pedersen commitment and a range proof; the ballot is tallied only while voting
//! is open and only if the proof is accepted.

use vstd::prelude::*;

pub mod ballot;
pub mod candidate;
pub mod dispatch;
pub mod election;
pub mod storage;
pub mod trace;
pub mod voter;
pub mod zkp;

verus! {

/// Identifies an election.  Identifiers are handed out by a counter that starts at 1.
pub type ElectionId = u64;

/// Identifies a candidate.  Identifiers are handed out by a counter that starts at 1.
pub type CandidateId = u64;

/// The value hidden inside a ballot's commitment.
pub type ZKPCommitmentValue = u64;

/// The number of ballots counted for one candidate in one election.
pub type VoteCount = u128;

/// What is recorded about a candidate when it is registered.
#[derive(Clone, Debug, PartialEq, Eq)]
pub struct CandidateInfo {
    pub id: CandidateId,
    pub name: Vec<u8>,
    pub info: Vec<u8>,
}

} // verus!
