//! Buying fractions into a vesting lock.

use vstd::prelude::*;
use crate::account::{id, program_id, PresaleAccount, Signer, TokenAccount, VestingAccount};
use crate::address::{lemma_address_by_bytes, Address};
use crate::authority::{
    bytes_of,
    presale_authority,
    presale_authority_of,
    vesting_authority,
    vesting_authority_of,
};
use crate::errors::{BindingError, PresaleError};
use crate::pricing::{payment_amount, payment_due};
use crate::state::PresaleInfo;
use crate::transfer::{Authorizer, Transfer};

verus! {

/// Every purchase hands in this many units of the access credential.
pub const ACCESS_TOKEN_UNIT: u64 = 1;

/// The accounts of a purchase.
#[derive(Clone, Copy, Debug, PartialEq, Eq)]
pub struct PurchaseFractions {
    pub presale_account: PresaleAccount,
    pub fraction_treasury: TokenAccount,
    pub payment_treasury: TokenAccount,
    pub access_treasury: TokenAccount,
    /// The buyer's payment tokens.
    pub from_account: TokenAccount,
    /// The balance in which the buyer's fractions are locked.
    pub vesting_account: TokenAccount,
    /// The buyer's vesting lock, kept at the address of its own authority.
    pub user_vesting_pda: VestingAccount,
    /// The authority derived for the presale.
    pub presale_pda: Address,
    /// The buyer's access credentials.
    pub access_account: TokenAccount,
    /// The buyer.
    pub signer: Signer,
}

impl PurchaseFractions {
    /// The presale and the lock are records of this protocol.
    pub open spec fn records_are_ours(&self) -> bool {
        &&& self.presale_account.owner == program_id()
        &&& self.user_vesting_pda.owner == program_id()
    }

    /// The three treasuries supplied are the ones that the presale records.
    pub open spec fn treasuries_are_bound(&self) -> bool {
        &&& self.presale_account.info.fraction_treasury == self.fraction_treasury.key
        &&& self.presale_account.info.payment_treasury == self.payment_treasury.key
        &&& self.presale_account.info.access_treasury == self.access_treasury.key
    }

    /// The buyer's accounts hold the assets of this presale and are the
    /// buyer's; the locked balance holds fractions and is the lock's.
    pub open spec fn custody_is_in_order(&self) -> bool {
        &&& self.presale_account.info.access_mint == self.access_account.mint
        &&& self.from_account.mint == self.payment_treasury.mint
        &&& self.from_account.owner == self.signer.key
        &&& self.vesting_account.mint == self.fraction_treasury.mint
        &&& self.vesting_account.owner == self.user_vesting_pda.key
    }

    /// The lock names the locked balance and the buyer.
    pub open spec fn lock_is_bound(&self) -> bool {
        &&& self.user_vesting_pda.info.vesting_account == self.vesting_account.key
        &&& self.user_vesting_pda.info.signer == self.signer.key
    }

    /// The first thing out of order among the accounts and the caller, if
    /// anything is, where `presale_authority` is what the presale's seeds
    /// derive and `vesting_authority` what the buyer's seeds in this presale
    /// derive.
    pub open spec fn violation_given(
        &self,
        presale_authority: Option<Seq<u8>>,
        vesting_authority: Option<Seq<u8>>,
    ) -> Option<BindingError> {
        if !self.records_are_ours() {
            Some(BindingError::Owner)
        } else if !self.signer.is_signer {
            Some(BindingError::NotSigner)
        } else if !self.treasuries_are_bound() {
            Some(BindingError::HasOne)
        } else if !self.custody_is_in_order() {
            Some(BindingError::Constraint)
        } else if vesting_authority != Some(self.user_vesting_pda.key@) {
            Some(BindingError::Seeds)
        } else if !self.lock_is_bound() {
            Some(BindingError::HasOne)
        } else if presale_authority != Some(self.presale_pda@) {
            Some(BindingError::Seeds)
        } else if self.access_account.owner != self.signer.key {
            Some(BindingError::Constraint)
        } else {
            None
        }
    }

    /// The first thing out of order among the accounts and the caller, if
    /// anything is, with the two authorities derived under the given bumps.
    pub open spec fn violation(&self, presale_pda_bump: u8, vesting_pda_bump: u8) -> Option<
        BindingError,
    > {
        self.violation_given(
            presale_authority_of(self.presale_account.key, program_id(), presale_pda_bump),
            vesting_authority_of(
                self.signer.key,
                self.presale_account.key,
                program_id(),
                vesting_pda_bump,
            ),
        )
    }

    /// Checks the accounts and the caller against the records, before any rule
    /// of the presale is consulted. `presale_authority` is what the presale's
    /// seeds derive, `vesting_authority` what the buyer's seeds in this presale
    /// derive.
    pub fn check(&self, presale_authority: Option<Address>, vesting_authority: Option<Address>) -> (r:
        Result<(), BindingError>)
        ensures
            r is Ok <==> self.violation_given(
                bytes_of(presale_authority),
                bytes_of(vesting_authority),
            ) is None,
            r matches Err(e) ==> self.violation_given(
                bytes_of(presale_authority),
                bytes_of(vesting_authority),
            ) == Some(e),
    {
        let program = id();
        let presale = &self.presale_account.info;
        if self.presale_account.owner != program || self.user_vesting_pda.owner != program {
            return Err(BindingError::Owner);
        }
        if !self.signer.is_signer {
            return Err(BindingError::NotSigner);
        }
        if presale.fraction_treasury != self.fraction_treasury.key || presale.payment_treasury
            != self.payment_treasury.key || presale.access_treasury != self.access_treasury.key {
            return Err(BindingError::HasOne);
        }
        if presale.access_mint != self.access_account.mint || self.from_account.mint
            != self.payment_treasury.mint || self.from_account.owner != self.signer.key
            || self.vesting_account.mint != self.fraction_treasury.mint
            || self.vesting_account.owner != self.user_vesting_pda.key {
            return Err(BindingError::Constraint);
        }
        match vesting_authority {
            Some(derived) => {
                proof {
                    lemma_address_by_bytes(derived, self.user_vesting_pda.key);
                }
                if derived != self.user_vesting_pda.key {
                    return Err(BindingError::Seeds);
                }
            },
            None => {
                return Err(BindingError::Seeds);
            },
        }
        if self.user_vesting_pda.info.vesting_account != self.vesting_account.key
            || self.user_vesting_pda.info.signer != self.signer.key {
            return Err(BindingError::HasOne);
        }
        match presale_authority {
            Some(derived) => {
                proof {
                    lemma_address_by_bytes(derived, self.presale_pda);
                }
                if derived != self.presale_pda {
                    return Err(BindingError::Seeds);
                }
            },
            None => {
                return Err(BindingError::Seeds);
            },
        }
        if self.access_account.owner != self.signer.key {
            return Err(BindingError::Constraint);
        }
        Ok(())
    }

    /// Derives the two authorities under the given bumps and checks the
    /// accounts and the caller with them.
    pub fn validate(&self, presale_pda_bump: u8, vesting_pda_bump: u8) -> (r: Result<
        (),
        BindingError,
    >)
        ensures
            r is Ok <==> self.violation(presale_pda_bump, vesting_pda_bump) is None,
            r matches Err(e) ==> self.violation(presale_pda_bump, vesting_pda_bump) == Some(e),
    {
        let program = id();
        let of_presale = presale_authority(&self.presale_account.key, &program, presale_pda_bump);
        let of_buyer = vesting_authority(
            &self.signer.key,
            &self.presale_account.key,
            &program,
            vesting_pda_bump,
        );
        self.check(of_presale, of_buyer)
    }

    /// The first rule of the presale that a purchase of `amount` at time `now`
    /// breaks, if it breaks any.
    pub open spec fn broken(&self, amount: u64, now: u64) -> Option<PresaleError> {
        let presale = self.presale_account.info;
        if amount == 0 {
            Some(PresaleError::AmountIsZero)
        } else if !presale.started {
            Some(PresaleError::PresaleHasNotStarted)
        } else if now >= presale.presale_end {
            Some(PresaleError::PresaleIsFinished)
        } else if self.access_account.amount < ACCESS_TOKEN_UNIT {
            Some(PresaleError::MissingAccessToken)
        } else if amount > presale.max_amount {
            Some(PresaleError::AmountTooLarge)
        } else if self.fraction_treasury.amount < amount {
            Some(PresaleError::NotEnoughTokensInFractionTreasury)
        } else if payment_due(presale.price, amount) > u64::MAX {
            Some(PresaleError::NumericalOverflowError)
        } else if self.from_account.amount < payment_due(presale.price, amount) {
            Some(PresaleError::InsufficientFunds)
        } else if presale.fractions_sold + amount > u64::MAX {
            Some(PresaleError::NumericalOverflowError)
        } else {
            None
        }
    }

    /// The buyer hands one access credential to the access treasury.
    pub open spec fn access_transfer(&self) -> Transfer {
        Transfer {
            from: self.access_account.key,
            to: self.access_treasury.key,
            authority: self.signer.key,
            amount: ACCESS_TOKEN_UNIT,
            authorizer: Authorizer::Owner,
        }
    }

    /// The buyer pays the price of `amount` fractions to the payment treasury.
    pub open spec fn payment_transfer(&self, amount: u64) -> Transfer {
        Transfer {
            from: self.from_account.key,
            to: self.payment_treasury.key,
            authority: self.signer.key,
            amount: payment_due(self.presale_account.info.price, amount) as u64,
            authorizer: Authorizer::Owner,
        }
    }

    /// The presale authority moves `amount` fractions from the treasury into
    /// the buyer's locked balance.
    pub open spec fn fraction_transfer(&self, presale_pda_bump: u8, amount: u64) -> Transfer {
        Transfer {
            from: self.fraction_treasury.key,
            to: self.vesting_account.key,
            authority: self.presale_pda,
            amount,
            authorizer: Authorizer::Presale {
                presale: self.presale_account.key,
                bump: presale_pda_bump,
            },
        }
    }

    /// What a purchase of `amount` asks of the ledger, in order.
    pub open spec fn transfers(&self, presale_pda_bump: u8, amount: u64) -> Seq<Transfer> {
        seq![
            self.access_transfer(),
            self.payment_transfer(amount),
            self.fraction_transfer(presale_pda_bump, amount),
        ]
    }

    /// The presale once `amount` more fractions are sold.
    pub open spec fn presale_after(&self, amount: u64) -> PresaleInfo {
        PresaleInfo {
            fractions_sold: (self.presale_account.info.fractions_sold + amount) as u64,
            ..self.presale_account.info
        }
    }

    /// The accounts as this call leaves them once the purchase is taken: only
    /// the count of fractions sold differs.
    pub open spec fn after(&self, amount: u64) -> PurchaseFractions {
        PurchaseFractions {
            presale_account: PresaleAccount {
                info: self.presale_after(amount),
                ..self.presale_account
            },
            ..*self
        }
    }
}

/// Takes or refuses a purchase of `amount` fractions at time `now`. The rules
/// are consulted in a fixed order and the first one broken is the answer. A
/// purchase that is taken asks the ledger for three transfers and counts the
/// fractions as sold; one that is refused changes nothing.
pub fn handler(ctx: &mut PurchaseFractions, presale_pda_bump: u8, amount: u64, now: u64) -> (r:
    Result<Vec<Transfer>, PresaleError>)
    ensures
        match r {
            Ok(ts) => {
                &&& old(ctx).broken(amount, now) is None
                &&& ts@ == old(ctx).transfers(presale_pda_bump, amount)
                &&& *final(ctx) == old(ctx).after(amount)
            },
            Err(e) => old(ctx).broken(amount, now) == Some(e) && *final(ctx) == *old(ctx),
        },
        amount == 0 ==> r matches Err(PresaleError::AmountIsZero),
{
    if amount == 0 {
        return Err(PresaleError::AmountIsZero);
    }
    if !ctx.presale_account.info.started {
        return Err(PresaleError::PresaleHasNotStarted);
    }
    if now >= ctx.presale_account.info.presale_end {
        return Err(PresaleError::PresaleIsFinished);
    }
    if ctx.access_account.amount < ACCESS_TOKEN_UNIT {
        return Err(PresaleError::MissingAccessToken);
    }
    if amount > ctx.presale_account.info.max_amount {
        return Err(PresaleError::AmountTooLarge);
    }
    if ctx.fraction_treasury.amount < amount {
        return Err(PresaleError::NotEnoughTokensInFractionTreasury);
    }
    let payment: u64 = match payment_amount(ctx.presale_account.info.price, amount) {
        Ok(due) => due,
        Err(_) => {
            return Err(PresaleError::NumericalOverflowError);
        },
    };
    if ctx.from_account.amount < payment {
        return Err(PresaleError::InsufficientFunds);
    }
    let sold: u64 = match ctx.presale_account.info.fractions_sold.checked_add(amount) {
        Some(sum) => sum,
        None => {
            return Err(PresaleError::NumericalOverflowError);
        },
    };
    let access = Transfer {
        from: ctx.access_account.key,
        to: ctx.access_treasury.key,
        authority: ctx.signer.key,
        amount: ACCESS_TOKEN_UNIT,
        authorizer: Authorizer::Owner,
    };
    let paid = Transfer {
        from: ctx.from_account.key,
        to: ctx.payment_treasury.key,
        authority: ctx.signer.key,
        amount: payment,
        authorizer: Authorizer::Owner,
    };
    let bought = Transfer {
        from: ctx.fraction_treasury.key,
        to: ctx.vesting_account.key,
        authority: ctx.presale_pda,
        amount,
        authorizer: Authorizer::Presale { presale: ctx.presale_account.key, bump: presale_pda_bump },
    };
    let mut ts: Vec<Transfer> = Vec::new();
    ts.push(access);
    ts.push(paid);
    ts.push(bought);
    ctx.presale_account.info.fractions_sold = sold;
    assert(ts@ =~= old(ctx).transfers(presale_pda_bump, amount));
    Ok(ts)
}

} // verus!
