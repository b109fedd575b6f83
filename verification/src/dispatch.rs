//! Who calls an operation, and how an operation can fail.

use vstd::prelude::*;

verus! {

/// Identifies an account.
pub type AccountId = u64;

/// What the identity layer has established about the caller of an operation.
#[derive(Clone, Copy, Debug, PartialEq, Eq)]
pub struct Origin {
    /// The account that signed the call, if one did.
    pub signer: Option<AccountId>,
    /// Whether the caller acts for the election commission.
    pub election_commission: bool,
}

/// Why an operation was refused.  A refused operation changes nothing.
#[derive(Clone, Copy, Debug, PartialEq, Eq)]
pub enum DispatchError<E> {
    /// The caller lacks the capability that the operation asks for.
    BadOrigin,
    /// An identifier counter or a tally is at its maximum.
    ArithmeticOverflow,
    /// A guard of the operation itself failed.
    Module(E),
}

impl Origin {
    /// A caller that acts for the election commission.
    pub fn commission() -> (origin: Origin)
        ensures
            origin == (Origin { signer: None, election_commission: true }),
    {
        Origin { signer: None, election_commission: true }
    }

    /// A caller authenticated as the account `who`, without the commission's capability.
    pub fn signed(who: AccountId) -> (origin: Origin)
        ensures
            origin == (Origin { signer: Some(who), election_commission: false }),
    {
        Origin { signer: Some(who), election_commission: false }
    }

    /// A caller about whom nothing was established.
    pub fn none() -> (origin: Origin)
        ensures
            origin == (Origin { signer: None, election_commission: false }),
    {
        Origin { signer: None, election_commission: false }
    }
}

/// The account behind a signed call; `BadOrigin` for any other caller.
pub fn ensure_signed<E>(origin: &Origin) -> (who: Result<AccountId, DispatchError<E>>)
    ensures
        who == (match origin.signer {
            Some(account) => Ok::<AccountId, DispatchError<E>>(account),
            None => Err(DispatchError::BadOrigin),
        }),
{
    match origin.signer {
        Some(account) => Ok(account),
        None => Err(DispatchError::BadOrigin),
    }
}

/// Passes a caller that acts for the election commission; `BadOrigin` for any other.
pub fn ensure_election_commission<E>(origin: &Origin) -> (approved: Result<(), DispatchError<E>>)
    ensures
        approved == (if origin.election_commission {
            Ok::<(), DispatchError<E>>(())
        } else {
            Err(DispatchError::BadOrigin)
        }),
{
    if origin.election_commission {
        Ok(())
    } else {
        Err(DispatchError::BadOrigin)
    }
}

} // verus!
