//! Movements of balances that an operation asks of the ledger, and what they
//! do to a balance once the ledger has carried them out.

use vstd::prelude::*;
use crate::account::TokenAccount;
use crate::address::Address;
use crate::authority::{
    presale_seeds,
    presale_signer_seeds,
    seed_bytes,
    vesting_seeds,
    vesting_signer_seeds,
    with_bump,
};

verus! {

/// On whose word a balance moves.
#[derive(Clone, Copy, Debug, PartialEq, Eq)]
pub enum Authorizer {
    /// The owner of the source account, who signed the call.
    Owner,
    /// The authority derived for a presale, for which this protocol speaks.
    Presale { presale: Address, bump: u8 },
    /// The vesting authority derived for a buyer in a presale, for which this
    /// protocol speaks.
    Vesting { buyer: Address, presale: Address, bump: u8 },
}

/// One movement of `amount` units from one custodial account to another.
#[derive(Clone, Copy, Debug, PartialEq, Eq)]
pub struct Transfer {
    pub from: Address,
    pub to: Address,
    /// The party that the ledger must find entitled to move the source
    /// balance.
    pub authority: Address,
    pub amount: u64,
    pub authorizer: Authorizer,
}

impl Authorizer {
    /// The seeds that stand in for a signature, where the authority is a
    /// derived one.
    pub open spec fn seeds(&self, program_id: Address) -> Option<Seq<Seq<u8>>> {
        match *self {
            Authorizer::Owner => None,
            Authorizer::Presale { presale, bump } => Some(
                with_bump(presale_seeds(presale, program_id), bump),
            ),
            Authorizer::Vesting { buyer, presale, bump } => Some(
                with_bump(vesting_seeds(buyer, presale, program_id), bump),
            ),
        }
    }

    /// Builds the seeds to hand to the ledger with a transfer; none where the
    /// owner signed in person.
    pub fn signer_seeds(&self, program_id: &Address) -> (r: Option<Vec<Vec<u8>>>)
        ensures
            match r {
                Some(seeds) => self.seeds(*program_id) == Some(seed_bytes(seeds@)),
                None => self.seeds(*program_id) is None,
            },
    {
        match self {
            Authorizer::Owner => None,
            Authorizer::Presale { presale, bump } => Some(
                presale_signer_seeds(presale, program_id, *bump),
            ),
            Authorizer::Vesting { buyer, presale, bump } => Some(
                vesting_signer_seeds(buyer, presale, program_id, *bump),
            ),
        }
    }
}

impl TokenAccount {
    /// Whether this account's balance lets the ledger carry out `t`: the
    /// source holds the amount, and the destination has room for it.
    pub open spec fn covers(&self, t: Transfer) -> bool {
        &&& self.key == t.from ==> self.amount >= t.amount
        &&& self.key == t.to && t.from != t.to ==> self.amount + t.amount <= u64::MAX
    }

    /// The balance of this account once the ledger has carried out `t`. A
    /// transfer from an account to itself moves nothing.
    pub open spec fn balance_after(&self, t: Transfer) -> int {
        if t.from == t.to {
            self.amount as int
        } else if self.key == t.from {
            self.amount - t.amount
        } else if self.key == t.to {
            self.amount + t.amount
        } else {
            self.amount as int
        }
    }

    /// This account once the ledger has carried out `t`.
    pub open spec fn after(&self, t: Transfer) -> TokenAccount {
        TokenAccount {
            key: self.key,
            mint: self.mint,
            owner: self.owner,
            amount: self.balance_after(t) as u64,
        }
    }

    /// Whether this account's balance lets the ledger carry out `ts` one
    /// after another.
    pub open spec fn covers_all(&self, ts: Seq<Transfer>) -> bool
        decreases ts.len(),
    {
        ts.len() > 0 ==> self.covers(ts[0]) && self.after(ts[0]).covers_all(ts.drop_first())
    }

    /// This account once the ledger has carried out `ts` one after another.
    pub open spec fn after_all(&self, ts: Seq<Transfer>) -> TokenAccount
        decreases ts.len(),
    {
        if ts.len() == 0 {
            *self
        } else {
            self.after(ts[0]).after_all(ts.drop_first())
        }
    }

    /// Applies `t` to this view of the account as the ledger would. Where the
    /// balance does not let the ledger carry it out, nothing changes and the
    /// answer is `false`.
    pub fn settle(&mut self, t: &Transfer) -> (done: bool)
        ensures
            done == old(self).covers(*t),
            done ==> *final(self) == old(self).after(*t),
            !done ==> *final(self) == *old(self),
    {
        let is_source = self.key == t.from;
        let is_destination = self.key == t.to;
        if is_source && self.amount < t.amount {
            return false;
        }
        if t.from == t.to {
            return true;
        }
        if is_source {
            self.amount = self.amount - t.amount;
            true
        } else if is_destination {
            match self.amount.checked_add(t.amount) {
                Some(sum) => {
                    self.amount = sum;
                    true
                },
                None => false,
            }
        } else {
            true
        }
    }
}

} // verus!
