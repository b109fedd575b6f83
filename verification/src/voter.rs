//! The registry of voters.
//!
//! Any authenticated account may register itself as a voter while an election's
//! registration is open.  The registry keeps one account for each election: a later
//! registration for the same election takes the place of the earlier one.

use vstd::prelude::*;
use crate::ElectionId;
use crate::dispatch::AccountId;
use crate::dispatch::DispatchError;
use crate::dispatch::Origin;
use crate::dispatch::ensure_signed;
use crate::election::ElectionInfo;
use crate::storage::StorageMap;

verus! {

/// What an accepted registration reports.
#[derive(Clone, Copy, Debug, PartialEq, Eq)]
pub enum Event {
    VoterRegistered,
}

/// Which guard of a registration failed.
#[derive(Clone, Copy, Debug, PartialEq, Eq)]
pub enum Error {
    /// Registration does not read open for the election.
    InvalidElectionIdOrNotOpenForRegistration,
}

/// How a registration ends.
pub type DispatchResult = Result<Event, DispatchError<Error>>;

/// Registering a voter in the registry `voters`, where `registration_open` tells
/// whether registration reads open for the election.
pub open spec fn spec_register_voter(
    voters: Map<ElectionId, AccountId>,
    registration_open: bool,
    origin: Origin,
    election_id: ElectionId,
) -> (Map<ElectionId, AccountId>, DispatchResult) {
    match origin.signer {
        None => (voters, Err(DispatchError::BadOrigin)),
        Some(who) => if !registration_open {
            (voters, Err(DispatchError::Module(Error::InvalidElectionIdOrNotOpenForRegistration)))
        } else {
            (voters.insert(election_id, who), Ok(Event::VoterRegistered))
        },
    }
}

/// A voter is registered if and only if the caller is authenticated and registration
/// reads open.  An accepted registration records the signing account for the election
/// and touches no other election; a refused one changes nothing.
pub proof fn lemma_voter_registration_is_all_or_nothing(
    voters: Map<ElectionId, AccountId>,
    registration_open: bool,
    origin: Origin,
    election_id: ElectionId,
)
    ensures
        ({
            let (after, result) = spec_register_voter(voters, registration_open, origin, election_id);
            &&& result is Ok <==> origin.signer is Some && registration_open
            &&& result is Err ==> after == voters
            &&& result is Ok ==> after == voters.insert(election_id, origin.signer->Some_0)
        }),
{
}

/// The voters of all elections.
pub struct Pallet {
    /// The account registered last for each election.
    pub voters: StorageMap<AccountId>,
}

impl View for Pallet {
    type V = Map<ElectionId, AccountId>;

    open spec fn view(&self) -> Map<ElectionId, AccountId> {
        self.voters@
    }
}

impl Pallet {
    /// No voter.
    pub fn new() -> (pallet: Pallet)
        ensures
            pallet@ == Map::<ElectionId, AccountId>::empty(),
    {
        Pallet { voters: StorageMap::new() }
    }

    /// Registers the signing account as a voter of an election whose registration reads
    /// open.  The credential material `_key` and `_value` is accepted and not kept.
    pub fn register_voter<E: ElectionInfo>(
        &mut self,
        elections: &E,
        origin: &Origin,
        election_id: ElectionId,
        _key: Vec<u8>,
        _value: Vec<u8>,
    ) -> (result: DispatchResult)
        ensures
            (final(self)@, result) == spec_register_voter(
                old(self)@,
                elections.open_for_voter_registration_spec(election_id),
                *origin,
                election_id,
            ),
    {
        let voter_account = ensure_signed::<Error>(origin)?;
        if !elections.is_election_open_for_voter_registration(&election_id) {
            return Err(DispatchError::Module(Error::InvalidElectionIdOrNotOpenForRegistration));
        }
        self.voters.insert(election_id, voter_account);
        Ok(Event::VoterRegistered)
    }
}

} // verus!
