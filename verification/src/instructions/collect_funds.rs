//! Collecting what the buyers have paid.

use vstd::prelude::*;
use crate::account::{id, program_id, PresaleAccount, Signer, TokenAccount};
use crate::address::{lemma_address_by_bytes, Address};
use crate::authority::{bytes_of, presale_authority, presale_authority_of};
use crate::errors::{BindingError, PresaleError};
use crate::transfer::{Authorizer, Transfer};

verus! {

/// The accounts of a collection.
#[derive(Clone, Copy, Debug, PartialEq, Eq)]
pub struct CollectFunds {
    pub presale_account: PresaleAccount,
    pub payment_treasury: TokenAccount,
    /// Where the authority wants the payments.
    pub to_account: TokenAccount,
    /// The authority derived for the presale.
    pub presale_pda: Address,
    /// The authority of the presale.
    pub authority: Signer,
}

impl CollectFunds {
    /// The payment treasury supplied is the one that the presale records,
    /// and the caller is its authority.
    pub open spec fn presale_is_bound(&self) -> bool {
        &&& self.presale_account.info.payment_treasury == self.payment_treasury.key
        &&& self.presale_account.info.authority == self.authority.key
    }

    /// The destination holds the payment asset and is the authority's.
    pub open spec fn custody_is_in_order(&self) -> bool {
        &&& self.to_account.mint == self.payment_treasury.mint
        &&& self.to_account.owner == self.authority.key
    }

    /// The first thing out of order among the accounts and the caller, if
    /// anything is, where `presale_authority` is what the presale's seeds
    /// derive.
    pub open spec fn violation_given(&self, presale_authority: Option<Seq<u8>>) -> Option<
        BindingError,
    > {
        if self.presale_account.owner != program_id() {
            Some(BindingError::Owner)
        } else if !self.authority.is_signer {
            Some(BindingError::NotSigner)
        } else if !self.presale_is_bound() {
            Some(BindingError::HasOne)
        } else if !self.custody_is_in_order() {
            Some(BindingError::Constraint)
        } else if presale_authority != Some(self.presale_pda@) {
            Some(BindingError::Seeds)
        } else {
            None
        }
    }

    /// The first thing out of order among the accounts and the caller, if
    /// anything is, with the presale's authority derived under `pda_bump`.
    pub open spec fn violation(&self, pda_bump: u8) -> Option<BindingError> {
        self.violation_given(
            presale_authority_of(self.presale_account.key, program_id(), pda_bump),
        )
    }

    /// Checks the accounts and the caller against the records, before anything
    /// is asked of the ledger. `presale_authority` is what the presale's seeds
    /// derive.
    pub fn check(&self, presale_authority: Option<Address>) -> (r: Result<(), BindingError>)
        ensures
            r is Ok <==> self.violation_given(bytes_of(presale_authority)) is None,
            r matches Err(e) ==> self.violation_given(bytes_of(presale_authority)) == Some(e),
    {
        let program = id();
        let presale = &self.presale_account.info;
        if self.presale_account.owner != program {
            return Err(BindingError::Owner);
        }
        if !self.authority.is_signer {
            return Err(BindingError::NotSigner);
        }
        if presale.payment_treasury != self.payment_treasury.key || presale.authority
            != self.authority.key {
            return Err(BindingError::HasOne);
        }
        if self.to_account.mint != self.payment_treasury.mint || self.to_account.owner
            != self.authority.key {
            return Err(BindingError::Constraint);
        }
        match presale_authority {
            Some(derived) => {
                proof {
                    lemma_address_by_bytes(derived, self.presale_pda);
                }
                if derived != self.presale_pda {
                    return Err(BindingError::Seeds);
                }
            },
            None => {
                return Err(BindingError::Seeds);
            },
        }
        Ok(())
    }

    /// Derives the presale's authority under `pda_bump` and checks the
    /// accounts and the caller with it.
    pub fn validate(&self, pda_bump: u8) -> (r: Result<(), BindingError>)
        ensures
            r is Ok <==> self.violation(pda_bump) is None,
            r matches Err(e) ==> self.violation(pda_bump) == Some(e),
    {
        let program = id();
        let derived = presale_authority(&self.presale_account.key, &program, pda_bump);
        self.check(derived)
    }

    /// The presale authority moves everything that the payment treasury
    /// holds to the authority's account.
    pub open spec fn collection(&self, pda_bump: u8) -> Transfer {
        Transfer {
            from: self.payment_treasury.key,
            to: self.to_account.key,
            authority: self.presale_pda,
            amount: self.payment_treasury.amount,
            authorizer: Authorizer::Presale { presale: self.presale_account.key, bump: pda_bump },
        }
    }

    /// What a collection asks of the ledger: one transfer of the whole
    /// balance, and nothing at all where the treasury is empty.
    pub open spec fn transfers(&self, pda_bump: u8) -> Seq<Transfer> {
        if self.payment_treasury.amount > 0 {
            seq![self.collection(pda_bump)]
        } else {
            Seq::empty()
        }
    }
}

/// Collects the whole balance of the payment treasury. This never fails: with
/// an empty treasury it succeeds and moves nothing.
pub fn handler(ctx: &CollectFunds, pda_bump: u8) -> (r: Result<Vec<Transfer>, PresaleError>)
    ensures
        r matches Ok(ts) && ts@ == ctx.transfers(pda_bump),
        ctx.payment_treasury.amount == 0 ==> (r matches Ok(ts) && ts@.len() == 0),
{
    let mut ts: Vec<Transfer> = Vec::new();
    let amount_to_collect: u64 = ctx.payment_treasury.amount;
    if amount_to_collect > 0 {
        ts.push(
            Transfer {
                from: ctx.payment_treasury.key,
                to: ctx.to_account.key,
                authority: ctx.presale_pda,
                amount: amount_to_collect,
                authorizer: Authorizer::Presale {
                    presale: ctx.presale_account.key,
                    bump: pda_bump,
                },
            },
        );
    }
    assert(ts@ =~= ctx.transfers(pda_bump));
    Ok(ts)
}

} // verus!
