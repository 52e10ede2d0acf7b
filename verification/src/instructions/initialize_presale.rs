//! Creating a presale.

use vstd::prelude::*;
use crate::account::{
    id,
    program_id,
    system_id,
    system_program,
    PresaleAccount,
    Signer,
    TokenAccount,
};
use crate::address::{lemma_address_by_bytes, Address};
use crate::authority::{bytes_of, presale_authority, presale_authority_of};
use crate::errors::{BindingError, PresaleError};
use crate::state::PresaleInfo;

verus! {

/// The accounts of the creation of a presale.
#[derive(Clone, Copy, Debug, PartialEq, Eq)]
pub struct InitializePresale {
    /// The place for the presale.
    pub presale_account: PresaleAccount,
    /// The place for the treasury of access credentials handed in.
    pub access_treasury: TokenAccount,
    /// The place for the treasury of fractions for sale.
    pub fraction_treasury: TokenAccount,
    /// The place for the treasury of payments.
    pub payment_treasury: TokenAccount,
    /// The authority derived for the presale, under which the treasuries
    /// are opened.
    pub presale_pda: Address,
    pub fraction_mint: Address,
    pub payment_mint: Address,
    pub access_mint: Address,
    /// The authority of the presale.
    pub authority: Signer,
}

impl InitializePresale {
    /// Nothing is kept yet at the place for the presale.
    pub open spec fn place_is_free(&self) -> bool {
        self.presale_account.owner == system_program()
    }

    /// The first thing out of order among the accounts and the caller, if
    /// anything is, where `presale_authority` is what the presale's seeds
    /// derive.
    pub open spec fn violation_given(&self, presale_authority: Option<Seq<u8>>) -> Option<
        BindingError,
    > {
        if !self.authority.is_signer {
            Some(BindingError::NotSigner)
        } else if !self.place_is_free() {
            Some(BindingError::InUse)
        } else if presale_authority != Some(self.presale_pda@) {
            Some(BindingError::Seeds)
        } else if self.fraction_mint == self.payment_mint {
            Some(BindingError::Constraint)
        } else {
            None
        }
    }

    /// The first thing out of order among the accounts and the caller, if
    /// anything is, with the presale's authority derived under `pda_bump`.
    pub open spec fn violation(&self, pda_bump: u8) -> Option<BindingError> {
        self.violation_given(
            presale_authority_of(self.presale_account.key, program_id(), pda_bump),
        )
    }

    /// Checks the caller, the place for the presale, its derived authority, and
    /// that fractions are sold for another asset than themselves.
    /// `presale_authority` is what the presale's seeds derive.
    pub fn check(&self, presale_authority: Option<Address>) -> (r: Result<(), BindingError>)
        ensures
            r is Ok <==> self.violation_given(bytes_of(presale_authority)) is None,
            r matches Err(e) ==> self.violation_given(bytes_of(presale_authority)) == Some(e),
    {
        if !self.authority.is_signer {
            return Err(BindingError::NotSigner);
        }
        if self.presale_account.owner != system_id() {
            return Err(BindingError::InUse);
        }
        match presale_authority {
            Some(derived) => {
                proof {
                    lemma_address_by_bytes(derived, self.presale_pda);
                }
                if derived != self.presale_pda {
                    return Err(BindingError::Seeds);
                }
            },
            None => {
                return Err(BindingError::Seeds);
            },
        }
        if self.fraction_mint == self.payment_mint {
            return Err(BindingError::Constraint);
        }
        Ok(())
    }

    /// Derives the presale's authority under `pda_bump` and checks the
    /// accounts and the caller with it.
    pub fn validate(&self, pda_bump: u8) -> (r: Result<(), BindingError>)
        ensures
            r is Ok <==> self.violation(pda_bump) is None,
            r matches Err(e) ==> self.violation(pda_bump) == Some(e),
    {
        let program = id();
        let derived = presale_authority(&self.presale_account.key, &program, pda_bump);
        self.check(derived)
    }

    /// A treasury at the place of `place`, opened empty for `mint` under the
    /// derived authority of the presale.
    pub open spec fn treasury(&self, place: TokenAccount, mint: Address) -> TokenAccount {
        TokenAccount { key: place.key, mint, owner: self.presale_pda, amount: 0 }
    }

    /// The accounts once the places are taken: the presale is a record of
    /// this protocol, and each treasury is opened empty, for its asset, under
    /// the derived authority of the presale.
    pub open spec fn allocated(&self) -> InitializePresale {
        InitializePresale {
            presale_account: PresaleAccount { owner: program_id(), ..self.presale_account },
            access_treasury: self.treasury(self.access_treasury, self.access_mint),
            fraction_treasury: self.treasury(self.fraction_treasury, self.fraction_mint),
            payment_treasury: self.treasury(self.payment_treasury, self.payment_mint),
            ..*self
        }
    }

    /// Takes the places, as `allocated` says.
    pub fn allocate(&mut self)
        ensures
            *final(self) == old(self).allocated(),
    {
        self.presale_account.owner = id();
        self.access_treasury.mint = self.access_mint;
        self.access_treasury.owner = self.presale_pda;
        self.access_treasury.amount = 0;
        self.fraction_treasury.mint = self.fraction_mint;
        self.fraction_treasury.owner = self.presale_pda;
        self.fraction_treasury.amount = 0;
        self.payment_treasury.mint = self.payment_mint;
        self.payment_treasury.owner = self.presale_pda;
        self.payment_treasury.amount = 0;
    }

    /// The presale that the operation writes: bound to the treasuries, the
    /// authority and the assets supplied, on the terms given, with nothing
    /// sold and not started.
    pub open spec fn presale(
        &self,
        price: u64,
        max_amount: u64,
        presale_end: u64,
        vesting_end: u64,
    ) -> PresaleInfo {
        PresaleInfo {
            fraction_treasury: self.fraction_treasury.key,
            payment_treasury: self.payment_treasury.key,
            access_treasury: self.access_treasury.key,
            authority: self.authority.key,
            fractions_sold: 0,
            fraction_mint: self.fraction_mint,
            payment_mint: self.payment_mint,
            access_mint: self.access_mint,
            price,
            max_amount,
            presale_start: 0,
            started: false,
            presale_end,
            vesting_end,
        }
    }

    /// The accounts as the operation leaves them.
    pub open spec fn after(
        &self,
        price: u64,
        max_amount: u64,
        presale_end: u64,
        vesting_end: u64,
    ) -> InitializePresale {
        InitializePresale {
            presale_account: PresaleAccount {
                info: self.presale(price, max_amount, presale_end, vesting_end),
                ..self.presale_account
            },
            ..*self
        }
    }
}

/// Writes the presale: its bindings and its terms, with nothing sold and not
/// started. This never fails.
pub fn handler(
    ctx: &mut InitializePresale,
    price: u64,
    max_amount: u64,
    presale_end: u64,
    vesting_end: u64,
) -> (r: Result<(), PresaleError>)
    ensures
        r is Ok,
        *final(ctx) == old(ctx).after(price, max_amount, presale_end, vesting_end),
{
    ctx.presale_account.info.fraction_treasury = ctx.fraction_treasury.key;
    ctx.presale_account.info.payment_treasury = ctx.payment_treasury.key;
    ctx.presale_account.info.access_treasury = ctx.access_treasury.key;
    ctx.presale_account.info.authority = ctx.authority.key;
    ctx.presale_account.info.presale_end = presale_end;
    ctx.presale_account.info.vesting_end = vesting_end;
    ctx.presale_account.info.fractions_sold = 0;
    ctx.presale_account.info.fraction_mint = ctx.fraction_mint;
    ctx.presale_account.info.access_mint = ctx.access_mint;
    ctx.presale_account.info.payment_mint = ctx.payment_mint;
    ctx.presale_account.info.price = price;
    ctx.presale_account.info.max_amount = max_amount;
    ctx.presale_account.info.presale_start = 0;
    ctx.presale_account.info.started = false;
    Ok(())
}

} // verus!
