//! Sequences of registrations, and the identifiers handed out along them.
//!
//! Elections and candidates draw their identifiers from two counters.  Whatever
//! operations are interleaved, each counter hands out strictly increasing identifiers,
//! so none is handed out twice.

use vstd::prelude::*;
use crate::CandidateId;
use crate::ElectionId;
use crate::candidate::CandidateState;
use crate::dispatch::Origin;
use crate::election;
use crate::election::ElectionState;
use crate::election::reads_open;

verus! {

/// An operation on the elections or on the registry of candidates, with its arguments.
pub enum Call {
    Election(election::Call),
    CandidateIdInc,
    RegisterCandidate { origin: Origin, election_id: ElectionId, name: Vec<u8>, info: Vec<u8> },
}

/// The identifier that an operation handed out, if it handed one out.
pub enum Issued {
    Nothing,
    Election(ElectionId),
    Candidate(CandidateId),
}

/// The elections together with the registry of candidates.
pub struct Registries {
    pub elections: ElectionState,
    pub candidates: CandidateState,
}

/// The value of a counter: the identifier handed out last, and 0 before the first.
pub open spec fn counter_value(counter: Option<u64>) -> nat {
    match counter {
        None => 0,
        Some(last) => last as nat,
    }
}

impl Registries {
    /// The state after an operation, and the identifier that it handed out, if any.
    pub open spec fn apply(self, call: Call) -> (Registries, Issued) {
        match call {
            Call::Election(inner) => (
                Registries { elections: self.elections.apply(inner).0, ..self },
                match self.elections.apply(inner).1 {
                    Some(election_id) => Issued::Election(election_id),
                    None => Issued::Nothing,
                },
            ),
            Call::CandidateIdInc => (
                Registries { candidates: self.candidates.candidate_id_inc().0, ..self },
                match self.candidates.candidate_id_inc().1 {
                    Ok(candidate_id) => Issued::Candidate(candidate_id),
                    Err(_) => Issued::Nothing,
                },
            ),
            Call::RegisterCandidate { origin, election_id, name, info } => {
                let open = reads_open(self.elections.registration, election_id);
                let (candidates, result) = self.candidates.register_candidate(
                    open,
                    origin,
                    election_id,
                    name,
                    info,
                );
                (
                    Registries { candidates, ..self },
                    match result {
                        Ok((candidate_id, _)) => Issued::Candidate(candidate_id),
                        Err(_) => Issued::Nothing,
                    },
                )
            },
        }
    }

    /// The election identifiers handed out along a sequence of operations, in order.
    pub open spec fn election_ids(self, calls: Seq<Call>) -> Seq<ElectionId>
        decreases calls.len(),
    {
        if calls.len() == 0 {
            Seq::empty()
        } else {
            let (next, issued) = self.apply(calls[0]);
            let rest = next.election_ids(calls.drop_first());
            match issued {
                Issued::Election(election_id) => seq![election_id] + rest,
                _ => rest,
            }
        }
    }

    /// The candidate identifiers handed out along a sequence of operations, in order.
    pub open spec fn candidate_ids(self, calls: Seq<Call>) -> Seq<CandidateId>
        decreases calls.len(),
    {
        if calls.len() == 0 {
            Seq::empty()
        } else {
            let (next, issued) = self.apply(calls[0]);
            let rest = next.candidate_ids(calls.drop_first());
            match issued {
                Issued::Candidate(candidate_id) => seq![candidate_id] + rest,
                _ => rest,
            }
        }
    }
}

/// No operation moves a counter back, and an identifier that is handed out is one more
/// than its counter was and is the counter's new value.
pub proof fn lemma_counters_move_forward(state: Registries, call: Call)
    ensures
        ({
            let (next, issued) = state.apply(call);
            &&& counter_value(state.elections.counter) <= counter_value(next.elections.counter)
            &&& counter_value(state.candidates.counter) <= counter_value(next.candidates.counter)
            &&& issued matches Issued::Election(election_id) ==> {
                &&& election_id == counter_value(state.elections.counter) + 1
                &&& next.elections.counter == Some(election_id)
            }
            &&& issued matches Issued::Candidate(candidate_id) ==> {
                &&& candidate_id == counter_value(state.candidates.counter) + 1
                &&& next.candidates.counter == Some(candidate_id)
            }
        }),
{
}

proof fn lemma_ids_above_counters(state: Registries, calls: Seq<Call>)
    ensures
        forall|i: int|
            #![auto]
            0 <= i < state.election_ids(calls).len() ==> counter_value(state.elections.counter)
                < state.election_ids(calls)[i],
        forall|i: int, j: int|
            #![auto]
            0 <= i < j < state.election_ids(calls).len() ==> state.election_ids(calls)[i]
                < state.election_ids(calls)[j],
        forall|i: int|
            #![auto]
            0 <= i < state.candidate_ids(calls).len() ==> counter_value(state.candidates.counter)
                < state.candidate_ids(calls)[i],
        forall|i: int, j: int|
            #![auto]
            0 <= i < j < state.candidate_ids(calls).len() ==> state.candidate_ids(calls)[i]
                < state.candidate_ids(calls)[j],
    decreases calls.len(),
{
    if calls.len() > 0 {
        let (next, issued) = state.apply(calls[0]);
        lemma_counters_move_forward(state, calls[0]);
        lemma_ids_above_counters(next, calls.drop_first());
        let elections = state.election_ids(calls);
        let later_elections = next.election_ids(calls.drop_first());
        assert forall|i: int| 0 <= i < elections.len() implies counter_value(
            state.elections.counter,
        ) < #[trigger] elections[i] by {
            if issued is Election {
                assert(elections == seq![issued->Election_0] + later_elections);
                if i > 0 {
                    assert(elections[i] == later_elections[i - 1]);
                }
            }
        }
        assert forall|i: int, j: int| 0 <= i < j < elections.len() implies #[trigger] elections[i]
            < #[trigger] elections[j] by {
            if issued is Election {
                assert(elections == seq![issued->Election_0] + later_elections);
                assert(elections[j] == later_elections[j - 1]);
                if i > 0 {
                    assert(elections[i] == later_elections[i - 1]);
                }
            }
        }
        let candidates = state.candidate_ids(calls);
        let later_candidates = next.candidate_ids(calls.drop_first());
        assert forall|i: int| 0 <= i < candidates.len() implies counter_value(
            state.candidates.counter,
        ) < #[trigger] candidates[i] by {
            if issued is Candidate {
                assert(candidates == seq![issued->Candidate_0] + later_candidates);
                if i > 0 {
                    assert(candidates[i] == later_candidates[i - 1]);
                }
            }
        }
        assert forall|i: int, j: int| 0 <= i < j < candidates.len() implies #[trigger] candidates[i]
            < #[trigger] candidates[j] by {
            if issued is Candidate {
                assert(candidates == seq![issued->Candidate_0] + later_candidates);
                assert(candidates[j] == later_candidates[j - 1]);
                if i > 0 {
                    assert(candidates[i] == later_candidates[i - 1]);
                }
            }
        }
    }
}

/// Along any sequence of operations on the elections and on the registry of
/// candidates, from any state, the election identifiers handed out are strictly
/// increasing, and so are the candidate identifiers.  No identifier is handed out
/// twice.
pub proof fn lemma_identifiers_strictly_increase(state: Registries, calls: Seq<Call>)
    ensures
        forall|i: int, j: int|
            #![auto]
            0 <= i < j < state.election_ids(calls).len() ==> state.election_ids(calls)[i]
                < state.election_ids(calls)[j],
        forall|i: int, j: int|
            #![auto]
            0 <= i < j < state.candidate_ids(calls).len() ==> state.candidate_ids(calls)[i]
                < state.candidate_ids(calls)[j],
{
    lemma_ids_above_counters(state, calls);
}

} // verus!
