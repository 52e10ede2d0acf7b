//! Putting fractions up for sale.

use vstd::prelude::*;
use crate::account::{id, program_id, PresaleAccount, Signer, TokenAccount};
use crate::address::{lemma_address_by_bytes, Address};
use crate::authority::{bytes_of, presale_authority, presale_authority_of};
use crate::errors::{BindingError, PresaleError};
use crate::transfer::{Authorizer, Transfer};

verus! {

/// The accounts of a funding.
#[derive(Clone, Copy, Debug, PartialEq, Eq)]
pub struct AddFractions {
    pub presale_account: PresaleAccount,
    pub fraction_treasury: TokenAccount,
    pub payment_treasury: TokenAccount,
    /// The authority's fractions, from which the treasury is filled.
    pub from_account: TokenAccount,
    /// The authority derived for the presale.
    pub presale_pda: Address,
    /// The authority of the presale.
    pub authority: Signer,
}

impl AddFractions {
    /// The treasuries supplied are the ones that the presale records, and
    /// the caller is its authority.
    pub open spec fn presale_is_bound(&self) -> bool {
        &&& self.presale_account.info.fraction_treasury == self.fraction_treasury.key
        &&& self.presale_account.info.payment_treasury == self.payment_treasury.key
        &&& self.presale_account.info.authority == self.authority.key
    }

    /// The source holds fractions and is the authority's.
    pub open spec fn custody_is_in_order(&self) -> bool {
        &&& self.from_account.mint == self.fraction_treasury.mint
        &&& self.from_account.owner == self.authority.key
    }

    /// The first thing out of order among the accounts and the caller, if
    /// anything is, where `presale_authority` is what the presale's seeds
    /// derive.
    pub open spec fn violation_given(&self, presale_authority: Option<Seq<u8>>) -> Option<
        BindingError,
    > {
        if self.presale_account.owner != program_id() {
            Some(BindingError::Owner)
        } else if !self.authority.is_signer {
            Some(BindingError::NotSigner)
        } else if !self.presale_is_bound() {
            Some(BindingError::HasOne)
        } else if !self.custody_is_in_order() {
            Some(BindingError::Constraint)
        } else if presale_authority != Some(self.presale_pda@) {
            Some(BindingError::Seeds)
        } else {
            None
        }
    }

    /// The first thing out of order among the accounts and the caller, if
    /// anything is, with the presale's authority derived under `pda_bump`.
    pub open spec fn violation(&self, pda_bump: u8) -> Option<BindingError> {
        self.violation_given(
            presale_authority_of(self.presale_account.key, program_id(), pda_bump),
        )
    }

    /// Checks the accounts and the caller against the records, before any rule
    /// of the presale is consulted. `presale_authority` is what the presale's
    /// seeds derive.
    pub fn check(&self, presale_authority: Option<Address>) -> (r: Result<(), BindingError>)
        ensures
            r is Ok <==> self.violation_given(bytes_of(presale_authority)) is None,
            r matches Err(e) ==> self.violation_given(bytes_of(presale_authority)) == Some(e),
    {
        let program = id();
        let presale = &self.presale_account.info;
        if self.presale_account.owner != program {
            return Err(BindingError::Owner);
        }
        if !self.authority.is_signer {
            return Err(BindingError::NotSigner);
        }
        if presale.fraction_treasury != self.fraction_treasury.key || presale.payment_treasury
            != self.payment_treasury.key || presale.authority != self.authority.key {
            return Err(BindingError::HasOne);
        }
        if self.from_account.mint != self.fraction_treasury.mint || self.from_account.owner
            != self.authority.key {
            return Err(BindingError::Constraint);
        }
        match presale_authority {
            Some(derived) => {
                proof {
                    lemma_address_by_bytes(derived, self.presale_pda);
                }
                if derived != self.presale_pda {
                    return Err(BindingError::Seeds);
                }
            },
            None => {
                return Err(BindingError::Seeds);
            },
        }
        Ok(())
    }

    /// Derives the presale's authority under `pda_bump` and checks the
    /// accounts and the caller with it.
    pub fn validate(&self, pda_bump: u8) -> (r: Result<(), BindingError>)
        ensures
            r is Ok <==> self.violation(pda_bump) is None,
            r matches Err(e) ==> self.violation(pda_bump) == Some(e),
    {
        let program = id();
        let derived = presale_authority(&self.presale_account.key, &program, pda_bump);
        self.check(derived)
    }

    /// The rule that a funding of `amount` breaks, if it breaks one.
    pub open spec fn broken(&self, amount: u64) -> Option<PresaleError> {
        if amount == 0 {
            Some(PresaleError::AmountIsZero)
        } else if self.from_account.amount < amount {
            Some(PresaleError::NotEnoughTokensInAccount)
        } else {
            None
        }
    }

    /// The authority moves `amount` of its own fractions into the treasury.
    pub open spec fn funding(&self, amount: u64) -> Transfer {
        Transfer {
            from: self.from_account.key,
            to: self.fraction_treasury.key,
            authority: self.authority.key,
            amount,
            authorizer: Authorizer::Owner,
        }
    }
}

/// Takes or refuses a funding of `amount` fractions. No record changes: what
/// is for sale is what the treasury holds.
pub fn handler(ctx: &AddFractions, amount: u64) -> (r: Result<Vec<Transfer>, PresaleError>)
    ensures
        match r {
            Ok(ts) => ctx.broken(amount) is None && ts@ == seq![ctx.funding(amount)],
            Err(e) => ctx.broken(amount) == Some(e),
        },
{
    if amount == 0 {
        return Err(PresaleError::AmountIsZero);
    }
    if ctx.from_account.amount < amount {
        return Err(PresaleError::NotEnoughTokensInAccount);
    }
    let funding = Transfer {
        from: ctx.from_account.key,
        to: ctx.fraction_treasury.key,
        authority: ctx.authority.key,
        amount,
        authorizer: Authorizer::Owner,
    };
    let mut ts: Vec<Transfer> = Vec::new();
    ts.push(funding);
    assert(ts@ =~= seq![ctx.funding(amount)]);
    Ok(ts)
}

} // verus!
