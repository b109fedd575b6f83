//! The lifecycle of elections.
//!
//! Every election has two independent phases, registration and voting, each open or
//! closed.  Both are closed when the election is registered.  Only the election
//! commission may register an election or touch a phase.
//!
//! The guards of the four phase operations test the flag for the value that the
//! operation is named after, not for its opposite: opening asks that the flag already
//! reads open and then writes open; closing asks that it already reads closed and then
//! writes closed.  An election that was never registered is rejected first, with
//! `InvalidElectionId`.  A phase flag therefore never changes under these operations;
//! it changes only by a direct write to the store.

use vstd::prelude::*;
use crate::ElectionId;
use crate::dispatch::DispatchError;
use crate::dispatch::Origin;
use crate::dispatch::ensure_election_commission;
use crate::storage::StorageMap;

verus! {

/// What an accepted operation reports.
#[derive(Clone, Copy, Debug, PartialEq, Eq)]
pub enum Event {
    /// An election was registered, with both phases closed.
    ElectionIdRegistered { election_id: ElectionId },
    /// An election's record was removed.
    ElectionIdDeRegistered,
    /// Registration was opened.
    ElectionIdActivated,
    /// Registration was closed.
    ElectionIdDeActivated,
    /// An election was registered for voting only, with voting closed.
    ElectionIdRegisteredForVoting { election_id: ElectionId },
    /// An election's voting flag was removed.
    ElectionIdDeRegisteredForVoting,
    /// Voting was opened.
    ElectionIdOpenForVoting { election_id: ElectionId },
    /// Voting was closed.
    ElectionIdCloseForVoting,
}

/// Which guard of a phase operation failed.
#[derive(Clone, Copy, Debug, PartialEq, Eq)]
pub enum Error {
    /// No flag is stored for the election.
    InvalidElectionId,
    /// Opening registration found the flag reading closed.
    ElectionIdAlreadyOpenForVoterRegistration,
    /// Closing registration found the flag reading open.
    ElectionIdNotOpenForVoterRegistration,
    /// Opening voting found the flag reading closed.
    ElectionIdAlreadyOpenForVoting,
    /// Closing voting found the flag reading open.
    ElectionIdNotOpenForVoting,
}

/// How an operation on elections ends.
pub type DispatchResult = Result<Event, DispatchError<Error>>;

/// The identifier that follows the counter's value: 1 for a counter never used, and
/// none once the counter is at its maximum.
pub open spec fn next_id(counter: Option<u64>) -> Option<u64> {
    match counter {
        None => Some(1),
        Some(last) => if last < u64::MAX {
            Some((last + 1) as u64)
        } else {
            None
        },
    }
}

/// Whether a flag store reads open for an election.  An absent flag reads closed.
pub open spec fn reads_open(flags: Map<ElectionId, bool>, election_id: ElectionId) -> bool {
    flags.contains_key(election_id) && flags[election_id]
}

/// The state of all elections as a mathematical value.
pub struct ElectionState {
    pub registration: Map<ElectionId, bool>,
    pub voting: Map<ElectionId, bool>,
    pub complete: Map<ElectionId, bool>,
    pub counter: Option<ElectionId>,
}

impl ElectionState {
    /// Allocating the next identifier.
    pub open spec fn election_id_inc(self) -> (ElectionState, Result<ElectionId, DispatchError<Error>>) {
        match next_id(self.counter) {
            Some(election_id) => (ElectionState { counter: Some(election_id), ..self }, Ok(election_id)),
            None => (self, Err(DispatchError::ArithmeticOverflow)),
        }
    }

    /// Registering an election: a new record with both phases closed.
    pub open spec fn register_new_election_id(self, origin: Origin) -> (ElectionState, DispatchResult) {
        if !origin.election_commission {
            (self, Err(DispatchError::BadOrigin))
        } else {
            match next_id(self.counter) {
                Some(election_id) => (
                    ElectionState {
                        registration: self.registration.insert(election_id, false),
                        voting: self.voting.insert(election_id, false),
                        complete: self.complete.insert(election_id, false),
                        counter: Some(election_id),
                    },
                    Ok(Event::ElectionIdRegistered { election_id }),
                ),
                None => (self, Err(DispatchError::ArithmeticOverflow)),
            }
        }
    }

    /// Removing an election's record.  Removing an absent record is accepted.
    pub open spec fn de_register_election_id(self, origin: Origin, election_id: ElectionId) -> (
        ElectionState,
        DispatchResult,
    ) {
        if !origin.election_commission {
            (self, Err(DispatchError::BadOrigin))
        } else {
            (
                ElectionState {
                    registration: self.registration.remove(election_id),
                    voting: self.voting.remove(election_id),
                    complete: self.complete.remove(election_id),
                    counter: self.counter,
                },
                Ok(Event::ElectionIdDeRegistered),
            )
        }
    }

    /// Opening registration.
    pub open spec fn election_open_for_voter_registration(
        self,
        origin: Origin,
        election_id: ElectionId,
    ) -> (ElectionState, DispatchResult) {
        if !origin.election_commission {
            (self, Err(DispatchError::BadOrigin))
        } else if !self.registration.contains_key(election_id) {
            (self, Err(DispatchError::Module(Error::InvalidElectionId)))
        } else if !self.registration[election_id] {
            (self, Err(DispatchError::Module(Error::ElectionIdAlreadyOpenForVoterRegistration)))
        } else {
            (
                ElectionState { registration: self.registration.insert(election_id, true), ..self },
                Ok(Event::ElectionIdActivated),
            )
        }
    }

    /// Closing registration.
    pub open spec fn election_close_for_voter_registration(
        self,
        origin: Origin,
        election_id: ElectionId,
    ) -> (ElectionState, DispatchResult) {
        if !origin.election_commission {
            (self, Err(DispatchError::BadOrigin))
        } else if !self.registration.contains_key(election_id) {
            (self, Err(DispatchError::Module(Error::InvalidElectionId)))
        } else if self.registration[election_id] {
            (self, Err(DispatchError::Module(Error::ElectionIdNotOpenForVoterRegistration)))
        } else {
            (
                ElectionState { registration: self.registration.insert(election_id, false), ..self },
                Ok(Event::ElectionIdDeActivated),
            )
        }
    }

    /// Registering an election for voting only: a new identifier whose voting flag is
    /// closed and whose other flags are absent.
    pub open spec fn register_election_for_voting(self, origin: Origin) -> (ElectionState, DispatchResult) {
        if !origin.election_commission {
            (self, Err(DispatchError::BadOrigin))
        } else {
            match next_id(self.counter) {
                Some(election_id) => (
                    ElectionState {
                        voting: self.voting.insert(election_id, false),
                        counter: Some(election_id),
                        ..self
                    },
                    Ok(Event::ElectionIdRegisteredForVoting { election_id }),
                ),
                None => (self, Err(DispatchError::ArithmeticOverflow)),
            }
        }
    }

    /// Removing an election's voting flag.  Removing an absent flag is accepted.
    pub open spec fn de_register_election_for_voting(self, origin: Origin, election_id: ElectionId) -> (
        ElectionState,
        DispatchResult,
    ) {
        if !origin.election_commission {
            (self, Err(DispatchError::BadOrigin))
        } else {
            (
                ElectionState { voting: self.voting.remove(election_id), ..self },
                Ok(Event::ElectionIdDeRegisteredForVoting),
            )
        }
    }

    /// Opening voting.
    pub open spec fn election_open_for_voting(self, origin: Origin, election_id: ElectionId) -> (
        ElectionState,
        DispatchResult,
    ) {
        if !origin.election_commission {
            (self, Err(DispatchError::BadOrigin))
        } else if !self.voting.contains_key(election_id) {
            (self, Err(DispatchError::Module(Error::InvalidElectionId)))
        } else if !self.voting[election_id] {
            (self, Err(DispatchError::Module(Error::ElectionIdAlreadyOpenForVoting)))
        } else {
            (
                ElectionState { voting: self.voting.insert(election_id, true), ..self },
                Ok(Event::ElectionIdOpenForVoting { election_id }),
            )
        }
    }

    /// Closing voting.
    pub open spec fn election_close_for_voting(self, origin: Origin, election_id: ElectionId) -> (
        ElectionState,
        DispatchResult,
    ) {
        if !origin.election_commission {
            (self, Err(DispatchError::BadOrigin))
        } else if !self.voting.contains_key(election_id) {
            (self, Err(DispatchError::Module(Error::InvalidElectionId)))
        } else if self.voting[election_id] {
            (self, Err(DispatchError::Module(Error::ElectionIdNotOpenForVoting)))
        } else {
            (
                ElectionState { voting: self.voting.insert(election_id, false), ..self },
                Ok(Event::ElectionIdCloseForVoting),
            )
        }
    }
}

/// An operation on elections, with its arguments.
pub enum Call {
    ElectionIdInc,
    RegisterNewElectionId { origin: Origin },
    DeRegisterElectionId { origin: Origin, election_id: ElectionId },
    ElectionOpenForVoterRegistration { origin: Origin, election_id: ElectionId },
    ElectionCloseForVoterRegistration { origin: Origin, election_id: ElectionId },
    RegisterElectionForVoting { origin: Origin },
    DeRegisterElectionForVoting { origin: Origin, election_id: ElectionId },
    ElectionOpenForVoting { origin: Origin, election_id: ElectionId },
    ElectionCloseForVoting { origin: Origin, election_id: ElectionId },
}

/// The identifier that an accepted operation handed out, if it handed one out.
pub open spec fn issued_by(result: DispatchResult) -> Option<ElectionId> {
    match result {
        Ok(Event::ElectionIdRegistered { election_id }) => Some(election_id),
        Ok(Event::ElectionIdRegisteredForVoting { election_id }) => Some(election_id),
        _ => None,
    }
}

impl ElectionState {
    /// The state after an operation, and the identifier that it handed out, if any.
    pub open spec fn apply(self, call: Call) -> (ElectionState, Option<ElectionId>) {
        match call {
            Call::ElectionIdInc => (
                self.election_id_inc().0,
                match self.election_id_inc().1 {
                    Ok(election_id) => Some(election_id),
                    Err(_) => None,
                },
            ),
            Call::RegisterNewElectionId { origin } => (
                self.register_new_election_id(origin).0,
                issued_by(self.register_new_election_id(origin).1),
            ),
            Call::DeRegisterElectionId { origin, election_id } => (
                self.de_register_election_id(origin, election_id).0,
                None,
            ),
            Call::ElectionOpenForVoterRegistration { origin, election_id } => (
                self.election_open_for_voter_registration(origin, election_id).0,
                None,
            ),
            Call::ElectionCloseForVoterRegistration { origin, election_id } => (
                self.election_close_for_voter_registration(origin, election_id).0,
                None,
            ),
            Call::RegisterElectionForVoting { origin } => (
                self.register_election_for_voting(origin).0,
                issued_by(self.register_election_for_voting(origin).1),
            ),
            Call::DeRegisterElectionForVoting { origin, election_id } => (
                self.de_register_election_for_voting(origin, election_id).0,
                None,
            ),
            Call::ElectionOpenForVoting { origin, election_id } => (
                self.election_open_for_voting(origin, election_id).0,
                None,
            ),
            Call::ElectionCloseForVoting { origin, election_id } => (
                self.election_close_for_voting(origin, election_id).0,
                None,
            ),
        }
    }
}

/// Opening voting is accepted exactly when the caller acts for the commission and the
/// voting flag already reads open.  From a flag that reads closed it is refused with
/// `ElectionIdAlreadyOpenForVoting`, and for an election without a voting flag with
/// `InvalidElectionId`.  Accepted or refused, it leaves every flag as it was.
pub proof fn lemma_open_voting_guard(state: ElectionState, origin: Origin, election_id: ElectionId)
    ensures
        ({
            let (after, result) = state.election_open_for_voting(origin, election_id);
            &&& result is Ok <==> origin.election_commission && reads_open(state.voting, election_id)
            &&& result is Ok ==> result == Ok::<Event, DispatchError<Error>>(
                Event::ElectionIdOpenForVoting { election_id },
            )
            &&& !origin.election_commission ==> result == Err::<Event, DispatchError<Error>>(
                DispatchError::BadOrigin,
            )
            &&& origin.election_commission && !state.voting.contains_key(election_id) ==> result
                == Err::<Event, DispatchError<Error>>(DispatchError::Module(Error::InvalidElectionId))
            &&& origin.election_commission && state.voting.contains_key(election_id)
                && !state.voting[election_id] ==> result == Err::<Event, DispatchError<Error>>(
                DispatchError::Module(Error::ElectionIdAlreadyOpenForVoting),
            )
            &&& after == state
        }),
{
    let (after, result) = state.election_open_for_voting(origin, election_id);
    if result is Ok {
        assert(state.voting.insert(election_id, true) =~= state.voting);
    }
}

/// None of the four phase operations changes a flag: each is accepted only where the
/// flag already holds the value that it writes.
pub proof fn lemma_phase_operations_keep_flags(state: ElectionState, origin: Origin, election_id: ElectionId)
    ensures
        state.election_open_for_voter_registration(origin, election_id).0 == state,
        state.election_close_for_voter_registration(origin, election_id).0 == state,
        state.election_open_for_voting(origin, election_id).0 == state,
        state.election_close_for_voting(origin, election_id).0 == state,
{
    if state.registration.contains_key(election_id) {
        assert(state.registration.insert(election_id, state.registration[election_id])
            =~= state.registration);
    }
    if state.voting.contains_key(election_id) {
        assert(state.voting.insert(election_id, state.voting[election_id]) =~= state.voting);
    }
}

/// A refused operation changes nothing: whenever an operation on elections ends in an
/// error, the state after it is the state before it.
pub proof fn lemma_refused_operation_changes_nothing(
    state: ElectionState,
    origin: Origin,
    election_id: ElectionId,
)
    ensures
        state.election_id_inc().1 is Err ==> state.election_id_inc().0 == state,
        state.register_new_election_id(origin).1 is Err ==> state.register_new_election_id(
            origin,
        ).0 == state,
        state.de_register_election_id(origin, election_id).1 is Err
            ==> state.de_register_election_id(origin, election_id).0 == state,
        state.election_open_for_voter_registration(origin, election_id).1 is Err
            ==> state.election_open_for_voter_registration(origin, election_id).0 == state,
        state.election_close_for_voter_registration(origin, election_id).1 is Err
            ==> state.election_close_for_voter_registration(origin, election_id).0 == state,
        state.register_election_for_voting(origin).1 is Err ==> state.register_election_for_voting(
            origin,
        ).0 == state,
        state.de_register_election_for_voting(origin, election_id).1 is Err
            ==> state.de_register_election_for_voting(origin, election_id).0 == state,
        state.election_open_for_voting(origin, election_id).1 is Err
            ==> state.election_open_for_voting(origin, election_id).0 == state,
        state.election_close_for_voting(origin, election_id).1 is Err
            ==> state.election_close_for_voting(origin, election_id).0 == state,
{
}

/// What the registries and the ballot box need to know about elections.
pub trait ElectionInfo {
    /// Whether registration reads open for the election.
    spec fn open_for_voter_registration_spec(&self, election_id: ElectionId) -> bool;

    /// Whether voting reads open for the election.
    spec fn open_for_voting_spec(&self, election_id: ElectionId) -> bool;

    fn is_election_open_for_voter_registration(&self, election_id: &ElectionId) -> (open: bool)
        ensures
            open == self.open_for_voter_registration_spec(*election_id),
    ;

    fn is_election_open_for_voting(&self, election_id: &ElectionId) -> (open: bool)
        ensures
            open == self.open_for_voting_spec(*election_id),
    ;
}

/// The elections and their phase flags.
pub struct Pallet {
    /// For each election with a registration flag, whether registration is open.
    pub open_for_voter_registration: StorageMap<bool>,
    /// For each election with a voting flag, whether voting is open.
    pub open_for_election: StorageMap<bool>,
    /// For each election with a record, whether it is complete.
    pub election_complete: StorageMap<bool>,
    /// The identifier handed out last, if any was.
    pub election_id_counter: Option<ElectionId>,
}

impl View for Pallet {
    type V = ElectionState;

    open spec fn view(&self) -> ElectionState {
        ElectionState {
            registration: self.open_for_voter_registration@,
            voting: self.open_for_election@,
            complete: self.election_complete@,
            counter: self.election_id_counter,
        }
    }
}

impl Pallet {
    /// No election, and a counter never used.
    pub fn new() -> (pallet: Pallet)
        ensures
            pallet@ == (ElectionState {
                registration: Map::empty(),
                voting: Map::empty(),
                complete: Map::empty(),
                counter: None,
            }),
    {
        Pallet {
            open_for_voter_registration: StorageMap::new(),
            open_for_election: StorageMap::new(),
            election_complete: StorageMap::new(),
            election_id_counter: None,
        }
    }

    /// Registers an election with both phases closed and reports its identifier.
    pub fn register_new_election_id(&mut self, origin: &Origin) -> (result: DispatchResult)
        ensures
            (final(self)@, result) == old(self)@.register_new_election_id(*origin),
    {
        ensure_election_commission::<Error>(origin)?;
        let election_id = self.election_id_inc()?;
        self.open_for_voter_registration.insert(election_id, false);
        self.open_for_election.insert(election_id, false);
        self.election_complete.insert(election_id, false);
        Ok(Event::ElectionIdRegistered { election_id })
    }

    /// Removes an election's record: its three flags.
    pub fn de_register_election_id(&mut self, origin: &Origin, election_id: ElectionId) -> (result:
        DispatchResult)
        ensures
            (final(self)@, result) == old(self)@.de_register_election_id(*origin, election_id),
    {
        ensure_election_commission::<Error>(origin)?;
        self.open_for_voter_registration.remove(election_id);
        self.open_for_election.remove(election_id);
        self.election_complete.remove(election_id);
        Ok(Event::ElectionIdDeRegistered)
    }

    /// Opens registration, if the registration flag already reads open.
    pub fn election_open_for_voter_registration(&mut self, origin: &Origin, election_id: ElectionId) -> (result:
        DispatchResult)
        ensures
            (final(self)@, result) == old(self)@.election_open_for_voter_registration(
                *origin,
                election_id,
            ),
    {
        ensure_election_commission::<Error>(origin)?;
        match self.open_for_voter_registration.get(election_id) {
            None => Err(DispatchError::Module(Error::InvalidElectionId)),
            Some(open) => {
                if !*open {
                    Err(DispatchError::Module(Error::ElectionIdAlreadyOpenForVoterRegistration))
                } else {
                    self.open_for_voter_registration.insert(election_id, true);
                    Ok(Event::ElectionIdActivated)
                }
            },
        }
    }

    /// Closes registration, if the registration flag already reads closed.
    pub fn election_close_for_voter_registration(&mut self, origin: &Origin, election_id: ElectionId) -> (result:
        DispatchResult)
        ensures
            (final(self)@, result) == old(self)@.election_close_for_voter_registration(
                *origin,
                election_id,
            ),
    {
        ensure_election_commission::<Error>(origin)?;
        match self.open_for_voter_registration.get(election_id) {
            None => Err(DispatchError::Module(Error::InvalidElectionId)),
            Some(open) => {
                if *open {
                    Err(DispatchError::Module(Error::ElectionIdNotOpenForVoterRegistration))
                } else {
                    self.open_for_voter_registration.insert(election_id, false);
                    Ok(Event::ElectionIdDeActivated)
                }
            },
        }
    }

    /// Hands out a new identifier and stores a closed voting flag under it.
    pub fn register_election_for_voting(&mut self, origin: &Origin) -> (result: DispatchResult)
        ensures
            (final(self)@, result) == old(self)@.register_election_for_voting(*origin),
    {
        ensure_election_commission::<Error>(origin)?;
        let election_id = self.election_id_inc()?;
        self.open_for_election.insert(election_id, false);
        Ok(Event::ElectionIdRegisteredForVoting { election_id })
    }

    /// Removes an election's voting flag.
    pub fn de_register_election_for_voting(&mut self, origin: &Origin, election_id: ElectionId) -> (result:
        DispatchResult)
        ensures
            (final(self)@, result) == old(self)@.de_register_election_for_voting(
                *origin,
                election_id,
            ),
    {
        ensure_election_commission::<Error>(origin)?;
        self.open_for_election.remove(election_id);
        Ok(Event::ElectionIdDeRegisteredForVoting)
    }

    /// Opens voting, if the voting flag already reads open.
    pub fn election_open_for_voting(&mut self, origin: &Origin, election_id: ElectionId) -> (result:
        DispatchResult)
        ensures
            (final(self)@, result) == old(self)@.election_open_for_voting(*origin, election_id),
    {
        ensure_election_commission::<Error>(origin)?;
        match self.open_for_election.get(election_id) {
            None => Err(DispatchError::Module(Error::InvalidElectionId)),
            Some(open) => {
                if !*open {
                    Err(DispatchError::Module(Error::ElectionIdAlreadyOpenForVoting))
                } else {
                    self.open_for_election.insert(election_id, true);
                    Ok(Event::ElectionIdOpenForVoting { election_id })
                }
            },
        }
    }

    /// Closes voting, if the voting flag already reads closed.
    pub fn election_close_for_voting(&mut self, origin: &Origin, election_id: ElectionId) -> (result:
        DispatchResult)
        ensures
            (final(self)@, result) == old(self)@.election_close_for_voting(*origin, election_id),
    {
        ensure_election_commission::<Error>(origin)?;
        match self.open_for_election.get(election_id) {
            None => Err(DispatchError::Module(Error::InvalidElectionId)),
            Some(open) => {
                if *open {
                    Err(DispatchError::Module(Error::ElectionIdNotOpenForVoting))
                } else {
                    self.open_for_election.insert(election_id, false);
                    Ok(Event::ElectionIdCloseForVoting)
                }
            },
        }
    }

    /// Advances the counter by one and returns its new value; the first identifier is 1.
    /// At the maximum the counter stays and `ArithmeticOverflow` is returned.
    pub fn election_id_inc(&mut self) -> (result: Result<ElectionId, DispatchError<Error>>)
        ensures
            (final(self)@, result) == old(self)@.election_id_inc(),
    {
        match self.election_id_counter {
            Some(last) => {
                match last.checked_add(1) {
                    Some(election_id) => {
                        self.election_id_counter = Some(election_id);
                        Ok(election_id)
                    },
                    None => Err(DispatchError::ArithmeticOverflow),
                }
            },
            None => {
                self.election_id_counter = Some(1);
                Ok(1)
            },
        }
    }
}

impl ElectionInfo for Pallet {
    open spec fn open_for_voter_registration_spec(&self, election_id: ElectionId) -> bool {
        reads_open(self@.registration, election_id)
    }

    open spec fn open_for_voting_spec(&self, election_id: ElectionId) -> bool {
        reads_open(self@.voting, election_id)
    }

    fn is_election_open_for_voter_registration(&self, election_id: &ElectionId) -> (open: bool) {
        match self.open_for_voter_registration.get(*election_id) {
            Some(open) => *open,
            None => false,
        }
    }

    fn is_election_open_for_voting(&self, election_id: &ElectionId) -> (open: bool) {
        match self.open_for_election.get(*election_id) {
            Some(open) => *open,
            None => false,
        }
    }
}

} // verus!
