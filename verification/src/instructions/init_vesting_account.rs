//! Opening a buyer's vesting lock in a presale.

use vstd::prelude::*;
use crate::account::{
    id,
    program_id,
    system_id,
    system_program,
    PresaleAccount,
    Signer,
    TokenAccount,
    VestingAccount,
};
use crate::address::{lemma_address_by_bytes, Address};
use crate::authority::{place_of, vesting_authority_of, vesting_location, vesting_location_of};
use crate::errors::{BindingError, PresaleError};
use crate::state::VestingInfo;

verus! {

/// The accounts of the opening of a lock.
#[derive(Clone, Copy, Debug, PartialEq, Eq)]
pub struct InitVesting {
    pub presale_account: PresaleAccount,
    pub fraction_treasury: TokenAccount,
    pub payment_treasury: TokenAccount,
    /// The place for the balance in which the buyer's fractions will be
    /// locked.
    pub vesting_account: TokenAccount,
    /// The place for the lock itself.
    pub user_vesting_pda: VestingAccount,
    /// The asset that the locked balance is opened for.
    pub fraction_mint: Address,
    /// The buyer.
    pub signer: Signer,
}

impl InitVesting {
    /// The treasuries supplied are the ones that the presale records.
    pub open spec fn treasuries_are_bound(&self) -> bool {
        &&& self.presale_account.info.fraction_treasury == self.fraction_treasury.key
        &&& self.presale_account.info.payment_treasury == self.payment_treasury.key
    }

    /// The asset that the locked balance is opened for is the one that the
    /// presale sells.
    pub open spec fn asset_is_the_presales(&self) -> bool {
        self.fraction_mint == self.presale_account.info.fraction_mint
    }

    /// The place for the lock is the address of the buyer's vesting authority
    /// in this presale under the given bump.
    pub open spec fn lock_is_derived(&self, vesting_pda_bump: u8) -> bool {
        vesting_authority_of(
            self.signer.key,
            self.presale_account.key,
            program_id(),
            vesting_pda_bump,
        ) == Some(self.user_vesting_pda.key@)
    }

    /// Nothing is kept yet at the place for the lock.
    pub open spec fn place_is_free(&self) -> bool {
        self.user_vesting_pda.owner == system_program()
    }

    /// The first thing out of order among the accounts and the caller, if
    /// anything is, where `place` is the one place, with its bump, that the
    /// buyer has in this presale.
    pub open spec fn violation_given(&self, place: Option<(Seq<u8>, u8)>, vesting_pda_bump: u8)
        -> Option<BindingError> {
        if self.presale_account.owner != program_id() {
            Some(BindingError::Owner)
        } else if !self.signer.is_signer {
            Some(BindingError::NotSigner)
        } else if !self.treasuries_are_bound() {
            Some(BindingError::HasOne)
        } else if !self.asset_is_the_presales() {
            Some(BindingError::Constraint)
        } else if place != Some((self.user_vesting_pda.key@, vesting_pda_bump)) {
            Some(BindingError::Seeds)
        } else if !self.place_is_free() {
            Some(BindingError::InUse)
        } else {
            None
        }
    }

    /// The first thing out of order among the accounts and the caller, if
    /// anything is, with the buyer's place found by the ledger's search.
    pub open spec fn violation(&self, vesting_pda_bump: u8) -> Option<BindingError> {
        self.violation_given(
            vesting_location_of(self.signer.key, self.presale_account.key, program_id()),
            vesting_pda_bump,
        )
    }

    /// Checks the accounts, the asset and the caller against the records, and
    /// that the buyer has no lock in this presale yet. `place` is the one place, with
    /// its bump, that the buyer has in this presale.
    pub fn check(&self, place: Option<(Address, u8)>, vesting_pda_bump: u8) -> (r: Result<
        (),
        BindingError,
    >)
        ensures
            r is Ok <==> self.violation_given(place_of(place), vesting_pda_bump) is None,
            r matches Err(e) ==> self.violation_given(place_of(place), vesting_pda_bump) == Some(e),
    {
        let program = id();
        let presale = &self.presale_account.info;
        if self.presale_account.owner != program {
            return Err(BindingError::Owner);
        }
        if !self.signer.is_signer {
            return Err(BindingError::NotSigner);
        }
        if presale.fraction_treasury != self.fraction_treasury.key || presale.payment_treasury
            != self.payment_treasury.key {
            return Err(BindingError::HasOne);
        }
        if self.fraction_mint != presale.fraction_mint {
            return Err(BindingError::Constraint);
        }
        match place {
            Some((place, bump)) => {
                proof {
                    lemma_address_by_bytes(place, self.user_vesting_pda.key);
                }
                if place != self.user_vesting_pda.key || bump != vesting_pda_bump {
                    return Err(BindingError::Seeds);
                }
            },
            None => {
                return Err(BindingError::Seeds);
            },
        }
        if self.user_vesting_pda.owner != system_id() {
            return Err(BindingError::InUse);
        }
        Ok(())
    }

    /// Finds the buyer's place in this presale and checks the accounts and the
    /// caller with it. A place that passes is the address of the buyer's
    /// vesting authority under the bump given, by which a purchase or an
    /// unlock will know the lock again.
    pub fn validate(&self, vesting_pda_bump: u8) -> (r: Result<(), BindingError>)
        ensures
            r is Ok <==> self.violation(vesting_pda_bump) is None,
            r matches Err(e) ==> self.violation(vesting_pda_bump) == Some(e),
            r is Ok ==> self.lock_is_derived(vesting_pda_bump),
    {
        let program = id();
        let place = vesting_location(&self.signer.key, &self.presale_account.key, &program);
        self.check(place, vesting_pda_bump)
    }

    /// The accounts once the two places are taken: the lock is a record of
    /// this protocol, and the locked balance is opened empty, for the asset
    /// supplied, which a call that is taken has found to be the presale's,
    /// under the authority found at the lock's own address.
    pub open spec fn allocated(&self) -> InitVesting {
        InitVesting {
            user_vesting_pda: VestingAccount { owner: program_id(), ..self.user_vesting_pda },
            vesting_account: TokenAccount {
                key: self.vesting_account.key,
                mint: self.fraction_mint,
                owner: self.user_vesting_pda.key,
                amount: 0,
            },
            ..*self
        }
    }

    /// Takes the two places, as `allocated` says.
    pub fn allocate(&mut self)
        ensures
            *final(self) == old(self).allocated(),
    {
        self.user_vesting_pda.owner = id();
        self.vesting_account.mint = self.fraction_mint;
        self.vesting_account.owner = self.user_vesting_pda.key;
        self.vesting_account.amount = 0;
    }

    /// The lock that the operation writes: it names the buyer and the locked
    /// balance.
    pub open spec fn lock(&self) -> VestingInfo {
        VestingInfo { signer: self.signer.key, vesting_account: self.vesting_account.key }
    }

    /// The accounts as the operation leaves them.
    pub open spec fn after(&self) -> InitVesting {
        InitVesting {
            user_vesting_pda: VestingAccount { info: self.lock(), ..self.user_vesting_pda },
            ..*self
        }
    }
}

/// Writes the lock: who may unlock it, and where the locked balance is. This
/// never fails.
pub fn handler(ctx: &mut InitVesting) -> (r: Result<(), PresaleError>)
    ensures
        r is Ok,
        *final(ctx) == old(ctx).after(),
{
    ctx.user_vesting_pda.info.signer = ctx.signer.key;
    ctx.user_vesting_pda.info.vesting_account = ctx.vesting_account.key;
    Ok(())
}

} // verus!
