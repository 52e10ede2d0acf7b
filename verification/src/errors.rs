//! Why an operation is turned down.

use vstd::prelude::*;

verus! {

/// A rule of the presale that an operation broke.
#[derive(Clone, Copy, Debug, PartialEq, Eq, Structural)]
pub enum PresaleError {
    /// The user doesn't have enough tokens in their account.
    NotEnoughTokensInAccount,
    /// There are not enough tokens in the fraction treasury to satisfy the
    /// request.
    NotEnoughTokensInFractionTreasury,
    /// The presale cannot be started more than once.
    PresaleAlreadyStarted,
    /// Amount must be greater than zero.
    AmountIsZero,
    /// The presale has not yet started.
    PresaleHasNotStarted,
    /// The presale has already finished.
    PresaleIsFinished,
    /// The user is missing a valid access token.
    MissingAccessToken,
    /// The user requested to purchase an amount greater than the maximum
    /// allowed.
    AmountTooLarge,
    /// The user doesn't have enough funds in their account to make the
    /// purchase.
    InsufficientFunds,
    /// The vesting period has not finished.
    VestingPeriodNotFinished,
    /// There are no tokens vested in the account.
    VestingAccountIsEmpty,
    /// A computed amount or a counter does not fit its type.
    NumericalOverflowError,
}

/// A supplied account that is not the one the records bind, or a caller
/// without the authority that the operation asks for.
#[derive(Clone, Copy, Debug, PartialEq, Eq, Structural)]
pub enum BindingError {
    /// A record is not kept by this protocol.
    Owner,
    /// The authority or buyer did not sign.
    NotSigner,
    /// The place for a new record is already taken.
    InUse,
    /// A supplied account is not the one named in the record.
    HasOne,
    /// A custodial account holds another asset, or is owned by another party,
    /// than the operation expects.
    Constraint,
    /// A derived authority or location is not the one its seeds derive.
    Seeds,
}

/// Any reason for which an operation is turned down as a whole.
#[derive(Clone, Copy, Debug, PartialEq, Eq, Structural)]
pub enum Rejection {
    /// The accounts or the caller failed the binding check; no rule of the
    /// presale was consulted.
    Binding(BindingError),
    /// The accounts were in order and a rule of the presale was broken.
    Presale(PresaleError),
}

/// What an operation answers, given what its binding check found and, if that
/// found nothing, which rule the operation itself found broken.
pub open spec fn verdict(violation: Option<BindingError>, broken: Option<PresaleError>) -> Option<
    Rejection,
> {
    match violation {
        Some(e) => Some(Rejection::Binding(e)),
        None => match broken {
            Some(e) => Some(Rejection::Presale(e)),
            None => None,
        },
    }
}

} // verus!
