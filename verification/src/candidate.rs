//! The registry of candidates.
//!
//! The election commission registers candidates while an election's registration is
//! open.  Candidate identifiers come from one counter for all elections, so an
//! identifier is never shared by two candidates, whatever their elections.

use vstd::prelude::*;
use crate::CandidateId;
use crate::CandidateInfo;
use crate::ElectionId;
use crate::dispatch::DispatchError;
use crate::dispatch::Origin;
use crate::dispatch::ensure_election_commission;
use crate::election::ElectionInfo;
use crate::election::next_id;
use crate::storage::StorageDoubleMap;

verus! {

/// What an accepted registration reports.
#[derive(Clone, Copy, Debug, PartialEq, Eq)]
pub enum Event {
    VoterRegistered,
}

/// Which guard of a registration failed.
#[derive(Clone, Copy, Debug, PartialEq, Eq)]
pub enum Error {
    /// Registration does not read open for the election.
    InvalidElectionIdOrNotOpenForRegistration,
}

/// The state of the registry as a mathematical value.
pub struct CandidateState {
    pub candidates: Map<(ElectionId, CandidateId), CandidateInfo>,
    pub counter: Option<CandidateId>,
}

impl CandidateState {
    /// Allocating the next identifier.
    pub open spec fn candidate_id_inc(self) -> (CandidateState, Result<CandidateId, DispatchError<Error>>) {
        match next_id(self.counter) {
            Some(id) => (CandidateState { counter: Some(id), ..self }, Ok(id)),
            None => (self, Err(DispatchError::ArithmeticOverflow)),
        }
    }

    /// Registering a candidate, where `registration_open` tells whether registration
    /// reads open for the election.
    pub open spec fn register_candidate(
        self,
        registration_open: bool,
        origin: Origin,
        election_id: ElectionId,
        name: Vec<u8>,
        info: Vec<u8>,
    ) -> (CandidateState, Result<(CandidateId, Event), DispatchError<Error>>) {
        if !origin.election_commission {
            (self, Err(DispatchError::BadOrigin))
        } else {
            match next_id(self.counter) {
                None => (self, Err(DispatchError::ArithmeticOverflow)),
                Some(id) => if !registration_open {
                    (self, Err(DispatchError::Module(Error::InvalidElectionIdOrNotOpenForRegistration)))
                } else {
                    (
                        CandidateState {
                            candidates: self.candidates.insert(
                                (election_id, id),
                                CandidateInfo { id, name, info },
                            ),
                            counter: Some(id),
                        },
                        Ok((id, Event::VoterRegistered)),
                    )
                },
            }
        }
    }
}

/// A refused registration changes nothing and uses up no identifier.  An accepted one
/// hands out the identifier that follows the counter and records the candidate under
/// it, for the election named, leaving every other record as it was.
pub proof fn lemma_registration_is_all_or_nothing(
    state: CandidateState,
    registration_open: bool,
    origin: Origin,
    election_id: ElectionId,
    name: Vec<u8>,
    info: Vec<u8>,
)
    ensures
        ({
            let (after, result) = state.register_candidate(
                registration_open,
                origin,
                election_id,
                name,
                info,
            );
            &&& result is Ok <==> origin.election_commission && registration_open && next_id(
                state.counter,
            ) is Some
            &&& result is Err ==> after == state
            &&& result matches Ok((id, _)) ==> {
                &&& Some(id) == next_id(state.counter)
                &&& after.counter == Some(id)
                &&& after.candidates.contains_key((election_id, id))
                &&& after.candidates[(election_id, id)] == (CandidateInfo { id, name, info })
                &&& forall|key: (ElectionId, CandidateId)|
                    key != (election_id, id) ==> (after.candidates.contains_key(key)
                        <==> state.candidates.contains_key(key)) && after.candidates[key]
                        == state.candidates[key]
            }
        }),
{
}

/// The candidates of all elections.
pub struct Pallet {
    /// What was recorded for each candidate, by election and candidate.
    pub candidates: StorageDoubleMap<CandidateInfo>,
    /// The identifier handed out last, if any was.
    pub candidate_id_counter: Option<CandidateId>,
}

impl View for Pallet {
    type V = CandidateState;

    open spec fn view(&self) -> CandidateState {
        CandidateState { candidates: self.candidates@, counter: self.candidate_id_counter }
    }
}

impl Pallet {
    /// No candidate, and a counter never used.
    pub fn new() -> (pallet: Pallet)
        ensures
            pallet@ == (CandidateState { candidates: Map::empty(), counter: None }),
    {
        Pallet { candidates: StorageDoubleMap::new(), candidate_id_counter: None }
    }

    /// Registers a candidate for an election whose registration reads open, and returns
    /// the candidate's new identifier.  A refused registration uses up no identifier.
    pub fn register_candidate<E: ElectionInfo>(
        &mut self,
        elections: &E,
        origin: &Origin,
        election_id: ElectionId,
        name: Vec<u8>,
        info: Vec<u8>,
    ) -> (result: Result<(CandidateId, Event), DispatchError<Error>>)
        ensures
            (final(self)@, result) == old(self)@.register_candidate(
                elections.open_for_voter_registration_spec(election_id),
                *origin,
                election_id,
                name,
                info,
            ),
    {
        ensure_election_commission::<Error>(origin)?;
        let kept = self.candidate_id_counter;
        let id = self.candidate_id_inc()?;
        if !elections.is_election_open_for_voter_registration(&election_id) {
            self.candidate_id_counter = kept;
            return Err(DispatchError::Module(Error::InvalidElectionIdOrNotOpenForRegistration));
        }
        self.candidates.insert(election_id, id, CandidateInfo { id, name, info });
        Ok((id, Event::VoterRegistered))
    }

    /// Advances the counter by one and returns its new value; the first identifier is 1.
    /// At the maximum the counter stays and `ArithmeticOverflow` is returned.
    pub fn candidate_id_inc(&mut self) -> (result: Result<CandidateId, DispatchError<Error>>)
        ensures
            (final(self)@, result) == old(self)@.candidate_id_inc(),
    {
        match self.candidate_id_counter {
            Some(last) => {
                match last.checked_add(1) {
                    Some(id) => {
                        self.candidate_id_counter = Some(id);
                        Ok(id)
                    },
                    None => Err(DispatchError::ArithmeticOverflow),
                }
            },
            None => {
                self.candidate_id_counter = Some(1);
                Ok(1)
            },
        }
    }
}

} // verus!
