//! Releasing a buyer's locked fractions once vesting has ended.

use vstd::prelude::*;
use crate::account::{id, program_id, PresaleAccount, Signer, TokenAccount, VestingAccount};
use crate::address::{lemma_address_by_bytes, Address};
use crate::authority::{bytes_of, vesting_authority, vesting_authority_of};
use crate::errors::{BindingError, PresaleError};
use crate::transfer::{Authorizer, Transfer};

verus! {

/// The accounts of an unlock.
#[derive(Clone, Copy, Debug, PartialEq, Eq)]
pub struct UnlockFractions {
    pub presale_account: PresaleAccount,
    pub fraction_treasury: TokenAccount,
    pub payment_treasury: TokenAccount,
    /// Where the buyer wants the fractions.
    pub to_account: TokenAccount,
    /// The balance in which the buyer's fractions are locked.
    pub vesting_account: TokenAccount,
    /// The buyer's vesting lock, kept at the address of its own authority.
    pub user_vesting_pda: VestingAccount,
    /// The buyer.
    pub signer: Signer,
}

impl UnlockFractions {
    /// The presale and the lock are records of this protocol.
    pub open spec fn records_are_ours(&self) -> bool {
        &&& self.presale_account.owner == program_id()
        &&& self.user_vesting_pda.owner == program_id()
    }

    /// The treasuries supplied are the ones that the presale records.
    pub open spec fn treasuries_are_bound(&self) -> bool {
        &&& self.presale_account.info.fraction_treasury == self.fraction_treasury.key
        &&& self.presale_account.info.payment_treasury == self.payment_treasury.key
    }

    /// The destination holds fractions and is the buyer's; the locked balance
    /// holds fractions and is the lock's.
    pub open spec fn custody_is_in_order(&self) -> bool {
        &&& self.to_account.mint == self.fraction_treasury.mint
        &&& self.to_account.owner == self.signer.key
        &&& self.vesting_account.mint == self.fraction_treasury.mint
        &&& self.vesting_account.owner == self.user_vesting_pda.key
    }

    /// The lock names the locked balance and the buyer.
    pub open spec fn lock_is_bound(&self) -> bool {
        &&& self.user_vesting_pda.info.vesting_account == self.vesting_account.key
        &&& self.user_vesting_pda.info.signer == self.signer.key
    }

    /// The first thing out of order among the accounts and the caller, if
    /// anything is, where `vesting_authority` is what the buyer's seeds in
    /// this presale derive.
    pub open spec fn violation_given(&self, vesting_authority: Option<Seq<u8>>) -> Option<
        BindingError,
    > {
        if !self.records_are_ours() {
            Some(BindingError::Owner)
        } else if !self.signer.is_signer {
            Some(BindingError::NotSigner)
        } else if !self.treasuries_are_bound() {
            Some(BindingError::HasOne)
        } else if !self.custody_is_in_order() {
            Some(BindingError::Constraint)
        } else if vesting_authority != Some(self.user_vesting_pda.key@) {
            Some(BindingError::Seeds)
        } else if !self.lock_is_bound() {
            Some(BindingError::HasOne)
        } else {
            None
        }
    }

    /// The first thing out of order among the accounts and the caller, if
    /// anything is, with the vesting authority derived under
    /// `vesting_pda_bump`.
    pub open spec fn violation(&self, vesting_pda_bump: u8) -> Option<BindingError> {
        self.violation_given(
            vesting_authority_of(
                self.signer.key,
                self.presale_account.key,
                program_id(),
                vesting_pda_bump,
            ),
        )
    }

    /// Checks the accounts and the caller against the records, before any rule
    /// of the presale is consulted. `vesting_authority` is what the buyer's
    /// seeds in this presale derive.
    pub fn check(&self, vesting_authority: Option<Address>) -> (r: Result<(), BindingError>)
        ensures
            r is Ok <==> self.violation_given(bytes_of(vesting_authority)) is None,
            r matches Err(e) ==> self.violation_given(bytes_of(vesting_authority)) == Some(e),
    {
        let program = id();
        let presale = &self.presale_account.info;
        if self.presale_account.owner != program || self.user_vesting_pda.owner != program {
            return Err(BindingError::Owner);
        }
        if !self.signer.is_signer {
            return Err(BindingError::NotSigner);
        }
        if presale.fraction_treasury != self.fraction_treasury.key || presale.payment_treasury
            != self.payment_treasury.key {
            return Err(BindingError::HasOne);
        }
        if self.to_account.mint != self.fraction_treasury.mint || self.to_account.owner
            != self.signer.key || self.vesting_account.mint != self.fraction_treasury.mint
            || self.vesting_account.owner != self.user_vesting_pda.key {
            return Err(BindingError::Constraint);
        }
        match vesting_authority {
            Some(derived) => {
                proof {
                    lemma_address_by_bytes(derived, self.user_vesting_pda.key);
                }
                if derived != self.user_vesting_pda.key {
                    return Err(BindingError::Seeds);
                }
            },
            None => {
                return Err(BindingError::Seeds);
            },
        }
        if self.user_vesting_pda.info.vesting_account != self.vesting_account.key
            || self.user_vesting_pda.info.signer != self.signer.key {
            return Err(BindingError::HasOne);
        }
        Ok(())
    }

    /// Derives the vesting authority under `vesting_pda_bump` and checks the
    /// accounts and the caller with it.
    pub fn validate(&self, vesting_pda_bump: u8) -> (r: Result<(), BindingError>)
        ensures
            r is Ok <==> self.violation(vesting_pda_bump) is None,
            r matches Err(e) ==> self.violation(vesting_pda_bump) == Some(e),
    {
        let program = id();
        let derived = vesting_authority(
            &self.signer.key,
            &self.presale_account.key,
            &program,
            vesting_pda_bump,
        );
        self.check(derived)
    }

    /// The rule that an unlock at time `now` breaks, if it breaks one: there
    /// must be something locked, and vesting must have ended.
    pub open spec fn broken(&self, now: u64) -> Option<PresaleError> {
        if self.vesting_account.amount == 0 {
            Some(PresaleError::VestingAccountIsEmpty)
        } else if now < self.presale_account.info.vesting_end {
            Some(PresaleError::VestingPeriodNotFinished)
        } else {
            None
        }
    }

    /// The vesting authority moves the whole locked balance to the buyer.
    pub open spec fn release(&self, vesting_pda_bump: u8) -> Transfer {
        Transfer {
            from: self.vesting_account.key,
            to: self.to_account.key,
            authority: self.user_vesting_pda.key,
            amount: self.vesting_account.amount,
            authorizer: Authorizer::Vesting {
                buyer: self.signer.key,
                presale: self.presale_account.key,
                bump: vesting_pda_bump,
            },
        }
    }

    /// What a call at time `now` asks of the ledger, taken or refused: the
    /// release, or nothing.
    pub open spec fn asked(&self, vesting_pda_bump: u8, now: u64) -> Seq<Transfer> {
        if self.violation(vesting_pda_bump) is None && self.broken(now) is None {
            seq![self.release(vesting_pda_bump)]
        } else {
            Seq::empty()
        }
    }
}

/// Takes or refuses an unlock at time `now`. An unlock that is taken asks the
/// ledger to move everything that is locked, never a part of it.
pub fn handler(ctx: &UnlockFractions, vesting_pda_bump: u8, now: u64) -> (r: Result<
    Vec<Transfer>,
    PresaleError,
>)
    ensures
        match r {
            Ok(ts) => ctx.broken(now) is None && ts@ == seq![ctx.release(vesting_pda_bump)],
            Err(e) => ctx.broken(now) == Some(e),
        },
{
    if ctx.vesting_account.amount == 0 {
        return Err(PresaleError::VestingAccountIsEmpty);
    }
    if now < ctx.presale_account.info.vesting_end {
        return Err(PresaleError::VestingPeriodNotFinished);
    }
    let release = Transfer {
        from: ctx.vesting_account.key,
        to: ctx.to_account.key,
        authority: ctx.user_vesting_pda.key,
        amount: ctx.vesting_account.amount,
        authorizer: Authorizer::Vesting {
            buyer: ctx.signer.key,
            presale: ctx.presale_account.key,
            bump: vesting_pda_bump,
        },
    };
    let mut ts: Vec<Transfer> = Vec::new();
    ts.push(release);
    assert(ts@ =~= seq![ctx.release(vesting_pda_bump)]);
    Ok(ts)
}

} // verus!
