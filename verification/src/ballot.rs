//! The ballot box: casting a ballot and keeping the tally.
//!
//! A ballot names a candidate and carries a compressed commitment and a range proof.
//! It is counted if and only if the caller is authenticated, voting reads open for the
//! election and the proof is accepted under the ballot box's transcript label.  A
//! ballot that is not counted changes nothing.

use vstd::prelude::*;
use crate::CandidateId;
use crate::ElectionId;
use crate::VoteCount;
use crate::dispatch::DispatchError;
use crate::dispatch::Origin;
use crate::dispatch::ensure_signed;
use crate::election::ElectionInfo;
use crate::storage::StorageDoubleMap;
use crate::zkp::BulletproofGens;
use crate::zkp::CompressedRistretto;
use crate::zkp::PedersenGens;
use crate::zkp::RANGE_BITS;
use crate::zkp::RangeProof;
use crate::zkp::Transcript;
use crate::zkp::VotingSystem;
use crate::zkp::proof_len;
use crate::zkp::verifier_answer;

verus! {

/// What a counted ballot reports.
#[derive(Clone, Copy, Debug, PartialEq, Eq)]
pub enum Event {
    VoteCasted,
}

/// Which guard of casting a ballot failed.
#[derive(Clone, Copy, Debug, PartialEq, Eq)]
pub enum Error {
    /// Voting does not read open for the election.
    InvalidElectionIdOrNotOpenForVoting,
    /// The range proof was not accepted.
    ProofVerificationFailed,
}

/// How casting a ballot ends.
pub type DispatchResult = Result<Event, DispatchError<Error>>;

/// The tally as a mathematical value: the count of each pair of election and candidate
/// that has one.  A pair without a count has no ballots yet.
pub type Tally = Map<(ElectionId, CandidateId), VoteCount>;

/// Counting one more ballot for a pair: 1 for a pair without a count, one more than the
/// count otherwise, and `ArithmeticOverflow` with the tally unchanged at the maximum.
pub open spec fn spec_vote_inc(tally: Tally, election_id: ElectionId, candidate_id: CandidateId) -> (
    Tally,
    Result<(), DispatchError<Error>>,
) {
    let key = (election_id, candidate_id);
    if !tally.contains_key(key) {
        (tally.insert(key, 1), Ok(()))
    } else if tally[key] < u128::MAX {
        (tally.insert(key, (tally[key] + 1) as u128), Ok(()))
    } else {
        (tally, Err(DispatchError::ArithmeticOverflow))
    }
}

/// Casting a ballot, where `voting_open` tells whether voting reads open for the
/// election and `proof_accepted` whether the verifier accepted the range proof.
pub open spec fn spec_cast_vote(
    tally: Tally,
    voting_open: bool,
    origin: Origin,
    election_id: ElectionId,
    candidate_id: CandidateId,
    proof_accepted: bool,
) -> (Tally, DispatchResult) {
    if origin.signer is None {
        (tally, Err(DispatchError::BadOrigin))
    } else if !voting_open {
        (tally, Err(DispatchError::Module(Error::InvalidElectionIdOrNotOpenForVoting)))
    } else if !proof_accepted {
        (tally, Err(DispatchError::Module(Error::ProofVerificationFailed)))
    } else {
        match spec_vote_inc(tally, election_id, candidate_id).1 {
            Ok(_) => (spec_vote_inc(tally, election_id, candidate_id).0, Ok(Event::VoteCasted)),
            Err(e) => (tally, Err(e)),
        }
    }
}

/// The number of ballots that a tally holds for a pair: its count, and 0 without one.
pub open spec fn counted(tally: Tally, key: (ElectionId, CandidateId)) -> nat {
    if tally.contains_key(key) {
        tally[key] as nat
    } else {
        0
    }
}

/// How often a pair occurs in a sequence of pairs.
pub open spec fn occurrences(keys: Seq<(ElectionId, CandidateId)>, key: (ElectionId, CandidateId)) -> nat
    decreases keys.len(),
{
    if keys.len() == 0 {
        0
    } else if keys[0] == key {
        1 + occurrences(keys.drop_first(), key)
    } else {
        occurrences(keys.drop_first(), key)
    }
}

/// The tally after counting one ballot for each pair of a sequence, in order.
pub open spec fn spec_vote_inc_all(tally: Tally, keys: Seq<(ElectionId, CandidateId)>) -> Tally
    decreases keys.len(),
{
    if keys.len() == 0 {
        tally
    } else {
        spec_vote_inc_all(spec_vote_inc(tally, keys[0].0, keys[0].1).0, keys.drop_first())
    }
}

/// Counting a ballot for one pair and then one for another gives the tally that the
/// other order gives.
pub proof fn lemma_vote_inc_commutes(tally: Tally, a: (ElectionId, CandidateId), b: (ElectionId, CandidateId))
    ensures
        spec_vote_inc(spec_vote_inc(tally, a.0, a.1).0, b.0, b.1).0 == spec_vote_inc(
            spec_vote_inc(tally, b.0, b.1).0,
            a.0,
            a.1,
        ).0,
{
    assert(spec_vote_inc(spec_vote_inc(tally, a.0, a.1).0, b.0, b.1).0 =~= spec_vote_inc(
        spec_vote_inc(tally, b.0, b.1).0,
        a.0,
        a.1,
    ).0);
}

/// Counting ballots one after another raises the count of a pair by the number of
/// ballots for that pair, however ballots for other pairs are interleaved: N ballots
/// for a pair without a count give it the count N.  The sum is asked to fit the
/// counter's type.
pub proof fn lemma_tally_counts_ballots(
    tally: Tally,
    keys: Seq<(ElectionId, CandidateId)>,
    key: (ElectionId, CandidateId),
)
    requires
        counted(tally, key) + occurrences(keys, key) <= u128::MAX,
    ensures
        counted(spec_vote_inc_all(tally, keys), key) == counted(tally, key) + occurrences(keys, key),
        spec_vote_inc_all(tally, keys).contains_key(key) <==> tally.contains_key(key) || occurrences(
            keys,
            key,
        ) > 0,
    decreases keys.len(),
{
    if keys.len() > 0 {
        let after_first = spec_vote_inc(tally, keys[0].0, keys[0].1).0;
        assert(keys[0] == (keys[0].0, keys[0].1));
        lemma_tally_counts_ballots(after_first, keys.drop_first(), key);
    }
}

/// A ballot is counted if and only if the caller is authenticated, voting reads open,
/// the proof was accepted and the count is below its maximum.  A counted ballot raises
/// the count of its pair by one and touches no other pair; a ballot that is not counted
/// changes nothing.
pub proof fn lemma_ballot_is_counted_iff_guards_pass(
    tally: Tally,
    voting_open: bool,
    origin: Origin,
    election_id: ElectionId,
    candidate_id: CandidateId,
    proof_accepted: bool,
)
    ensures
        ({
            let (after, result) = spec_cast_vote(
                tally,
                voting_open,
                origin,
                election_id,
                candidate_id,
                proof_accepted,
            );
            let key = (election_id, candidate_id);
            &&& result is Ok <==> origin.signer is Some && voting_open && proof_accepted && counted(
                tally,
                key,
            ) < u128::MAX
            &&& result is Ok ==> after.contains_key(key) && counted(after, key) == counted(tally, key)
                + 1
            &&& result is Err ==> after == tally
            &&& forall|other: (ElectionId, CandidateId)|
                other != key ==> (after.contains_key(other) <==> tally.contains_key(other))
                    && after[other] == tally[other]
        }),
{
}

/// No ballot lowers a count: whatever ballot is cast, every pair holds at least the
/// count that it held before, and a pair that had a count keeps one.
pub proof fn lemma_counts_never_decrease(
    tally: Tally,
    voting_open: bool,
    origin: Origin,
    election_id: ElectionId,
    candidate_id: CandidateId,
    proof_accepted: bool,
    key: (ElectionId, CandidateId),
)
    ensures
        ({
            let after = spec_cast_vote(
                tally,
                voting_open,
                origin,
                election_id,
                candidate_id,
                proof_accepted,
            ).0;
            &&& counted(tally, key) <= counted(after, key)
            &&& tally.contains_key(key) ==> after.contains_key(key)
        }),
{
}

/// The tally of all elections, and the label under which ballots are checked.
pub struct Pallet {
    /// The number of ballots counted, by election and candidate.
    pub ballot: StorageDoubleMap<VoteCount>,
    /// Checks ballots under the ballot box's transcript label.
    pub voting_system: VotingSystem,
}

impl View for Pallet {
    type V = Tally;

    open spec fn view(&self) -> Tally {
        self.ballot@
    }
}

impl Pallet {
    /// An empty tally for ballots made under the label of `voting_system`.
    pub fn new(voting_system: VotingSystem) -> (pallet: Pallet)
        ensures
            pallet@ == Tally::empty(),
            pallet.voting_system == voting_system,
    {
        Pallet { ballot: StorageDoubleMap::new(), voting_system }
    }

    /// The number of ballots counted for a candidate of an election, or `None` if none
    /// was counted yet.
    pub fn ballot(&self, election_id: ElectionId, candidate_id: CandidateId) -> (count: Option<VoteCount>)
        ensures
            count == (if self@.contains_key((election_id, candidate_id)) {
                Some(self@[(election_id, candidate_id)])
            } else {
                None
            }),
    {
        match self.ballot.get(election_id, candidate_id) {
            Some(count) => Some(*count),
            None => None,
        }
    }

    /// Casts a ballot: checks the caller, the voting phase and the range proof, and
    /// counts the ballot if all three pass.
    ///
    /// The ballot is handled as `tally_vote` handles it for the verifier's answer: the
    /// answer, for some seed, to the proof and the commitment under the ballot box's
    /// label, with generators for one value of 64 bits.  A proof whose length rules out
    /// an acceptance is refused.
    pub fn cast_vote<E: ElectionInfo>(
        &mut self,
        elections: &E,
        origin: &Origin,
        election_id: ElectionId,
        candidate_id: CandidateId,
        commitment: &CompressedRistretto,
        proof: &RangeProof,
    ) -> (result: DispatchResult)
        ensures
            final(self).voting_system == old(self).voting_system,
            exists|seed: Seq<u8>|
                (final(self)@, result) == spec_cast_vote(
                    old(self)@,
                    elections.open_for_voting_spec(election_id),
                    *origin,
                    election_id,
                    candidate_id,
                    #[trigger] verifier_answer(
                        proof@,
                        commitment@,
                        old(self).voting_system.transcript@,
                        RANGE_BITS,
                        1,
                        RANGE_BITS,
                        seed,
                    ),
                ),
            (final(self)@, result) == spec_cast_vote(
                old(self)@,
                elections.open_for_voting_spec(election_id),
                *origin,
                election_id,
                candidate_id,
                true,
            ) || (final(self)@, result) == spec_cast_vote(
                old(self)@,
                elections.open_for_voting_spec(election_id),
                *origin,
                election_id,
                candidate_id,
                false,
            ),
            proof@.len() != proof_len(RANGE_BITS) ==> (final(self)@, result) == spec_cast_vote(
                old(self)@,
                elections.open_for_voting_spec(election_id),
                *origin,
                election_id,
                candidate_id,
                false,
            ),
    {
        let checked = origin.signer.is_some() && elections.is_election_open_for_voting(&election_id);
        let gens = BulletproofGens::new(RANGE_BITS, 1);
        let proof_accepted = if checked {
            proof.verify_single(
                &gens,
                &PedersenGens::default(),
                Transcript::new(self.voting_system.transcript),
                commitment,
                RANGE_BITS,
            )
        } else {
            false
        };
        let ghost seed = if checked {
            choose|seed: Seq<u8>|
                proof_accepted == #[trigger] verifier_answer(
                    proof@,
                    commitment@,
                    self.voting_system.transcript@,
                    gens.gens_built(),
                    gens.parties_built(),
                    RANGE_BITS,
                    seed,
                )
        } else {
            Seq::empty()
        };
        let result = self.tally_vote(elections, origin, election_id, candidate_id, proof_accepted);
        assert((self@, result) == spec_cast_vote(
            old(self)@,
            elections.open_for_voting_spec(election_id),
            *origin,
            election_id,
            candidate_id,
            verifier_answer(
                proof@,
                commitment@,
                old(self).voting_system.transcript@,
                RANGE_BITS,
                1,
                RANGE_BITS,
                seed,
            ),
        ));
        result
    }

    /// Handles a ballot whose range proof the verifier has answered: counts it if the
    /// caller is authenticated, voting reads open and the proof was accepted.
    pub fn tally_vote<E: ElectionInfo>(
        &mut self,
        elections: &E,
        origin: &Origin,
        election_id: ElectionId,
        candidate_id: CandidateId,
        proof_accepted: bool,
    ) -> (result: DispatchResult)
        ensures
            final(self).voting_system == old(self).voting_system,
            (final(self)@, result) == spec_cast_vote(
                old(self)@,
                elections.open_for_voting_spec(election_id),
                *origin,
                election_id,
                candidate_id,
                proof_accepted,
            ),
    {
        let _ = ensure_signed::<Error>(origin)?;
        if !elections.is_election_open_for_voting(&election_id) {
            return Err(DispatchError::Module(Error::InvalidElectionIdOrNotOpenForVoting));
        }
        if !proof_accepted {
            return Err(DispatchError::Module(Error::ProofVerificationFailed));
        }
        self.vote_inc(election_id, candidate_id)?;
        Ok(Event::VoteCasted)
    }

    /// Counts one more ballot for a candidate of an election.
    pub fn vote_inc(&mut self, election_id: ElectionId, candidate_id: CandidateId) -> (result: Result<
        (),
        DispatchError<Error>,
    >)
        ensures
            final(self).voting_system == old(self).voting_system,
            (final(self)@, result) == spec_vote_inc(old(self)@, election_id, candidate_id),
    {
        let current = match self.ballot.get(election_id, candidate_id) {
            Some(count) => Some(*count),
            None => None,
        };
        match current {
            Some(count) => {
                match count.checked_add(1) {
                    Some(next) => {
                        self.ballot.insert(election_id, candidate_id, next);
                        Ok(())
                    },
                    None => Err(DispatchError::ArithmeticOverflow),
                }
            },
            None => {
                self.ballot.insert(election_id, candidate_id, 1);
                Ok(())
            },
        }
    }
}

} // verus!
