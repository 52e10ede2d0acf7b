//! A presale of fraction tokens against payment tokens, gated by an access
//! credential, with purchased tokens locked until a vesting time.
//!
//! Each operation is decided here and carried out elsewhere. An operation is
//! shown the accounts it was given, checks that they are the ones the records
//! bind and that the caller may act, consults the rules of the presale, and
//! answers with the transfers that the ledger is to carry out and with the
//! records as they are to be kept. An operation that is turned down changes
//! nothing and asks for nothing.

use vstd::prelude::*;

pub mod account;
pub mod address;
pub mod authority;
pub mod clock;
pub mod errors;
pub mod instructions;
pub mod lifecycle;
pub mod pricing;
pub mod state;
pub mod transfer;

pub use crate::account::id;

use crate::clock::{seconds, seconds_of};
use crate::errors::{verdict, Rejection};
use crate::instructions::add_fractions::AddFractions;
use crate::instructions::collect_funds::CollectFunds;
use crate::instructions::init_vesting_account::InitVesting;
use crate::instructions::initialize_presale::InitializePresale;
use crate::instructions::purchase_fractions::PurchaseFractions;
use crate::instructions::remove_fractions::RemoveFractions;
use crate::instructions::start_presale::StartPresale;
use crate::instructions::unlock_fractions::UnlockFractions;
use crate::transfer::Transfer;

verus! {

/// Creates a presale on the given terms. The places for the presale and its
/// treasuries are taken, and the presale is written with nothing sold and not
/// started. Refused, with nothing changed, where the caller did not sign, the
/// place is taken, the derived authority is not the presale's, or fractions
/// would be sold for themselves.
pub fn initialize_presale(
    ctx: &mut InitializePresale,
    pda_bump: u8,
    price: u64,
    max_amount: u64,
    presale_end: u64,
    vesting_end: u64,
) -> (r: Result<(), Rejection>)
    ensures
        match r {
            Ok(_) => {
                &&& old(ctx).violation(pda_bump) is None
                &&& *final(ctx) == old(ctx).allocated().after(
                    price,
                    max_amount,
                    presale_end,
                    vesting_end,
                )
            },
            Err(e) => {
                &&& verdict(old(ctx).violation(pda_bump), None) == Some(e)
                &&& *final(ctx) == *old(ctx)
            },
        },
{
    match ctx.validate(pda_bump) {
        Ok(_) => {},
        Err(e) => {
            return Err(Rejection::Binding(e));
        },
    }
    ctx.allocate();
    match instructions::initialize_presale::handler(
        ctx,
        price,
        max_amount,
        presale_end,
        vesting_end,
    ) {
        Ok(_) => Ok(()),
        Err(e) => Err(Rejection::Presale(e)),
    }
}

/// Puts `amount` fractions of the authority's up for sale: one transfer into
/// the fraction treasury, or the first reason against it.
pub fn add_fractions_for_sale(ctx: &AddFractions, pda_bump: u8, amount: u64) -> (r: Result<
    Vec<Transfer>,
    Rejection,
>)
    ensures
        match r {
            Ok(ts) => {
                &&& verdict(ctx.violation(pda_bump), ctx.broken(amount)) is None
                &&& ts@ == seq![ctx.funding(amount)]
            },
            Err(e) => verdict(ctx.violation(pda_bump), ctx.broken(amount)) == Some(e),
        },
{
    match ctx.validate(pda_bump) {
        Ok(_) => {},
        Err(e) => {
            return Err(Rejection::Binding(e));
        },
    }
    match instructions::add_fractions::handler(ctx, amount) {
        Ok(ts) => Ok(ts),
        Err(e) => Err(Rejection::Presale(e)),
    }
}

/// Takes `amount` fractions off sale: one transfer out of the fraction
/// treasury on the word of the presale's derived authority, or the first
/// reason against it.
pub fn remove_fractions_for_sale(ctx: &RemoveFractions, pda_bump: u8, amount: u64) -> (r: Result<
    Vec<Transfer>,
    Rejection,
>)
    ensures
        match r {
            Ok(ts) => {
                &&& verdict(ctx.violation(pda_bump), ctx.broken(amount)) is None
                &&& ts@ == seq![ctx.defunding(pda_bump, amount)]
            },
            Err(e) => verdict(ctx.violation(pda_bump), ctx.broken(amount)) == Some(e),
        },
{
    match ctx.validate(pda_bump) {
        Ok(_) => {},
        Err(e) => {
            return Err(Rejection::Binding(e));
        },
    }
    match instructions::remove_fractions::handler(ctx, pda_bump, amount) {
        Ok(ts) => Ok(ts),
        Err(e) => Err(Rejection::Presale(e)),
    }
}

/// Starts the presale at the clock reading given. A presale starts once: a
/// second start is refused and leaves the start time as it was.
pub fn start_presale(ctx: &mut StartPresale, unix_timestamp: i64) -> (r: Result<(), Rejection>)
    ensures
        match r {
            Ok(_) => {
                &&& verdict(old(ctx).violation(), old(ctx).broken()) is None
                &&& *final(ctx) == old(ctx).after(seconds_of(unix_timestamp) as u64)
            },
            Err(e) => {
                &&& verdict(old(ctx).violation(), old(ctx).broken()) == Some(e)
                &&& *final(ctx) == *old(ctx)
            },
        },
        *final(ctx) == old(ctx).outcome(seconds_of(unix_timestamp) as u64),
{
    match ctx.validate() {
        Ok(_) => {},
        Err(e) => {
            return Err(Rejection::Binding(e));
        },
    }
    let now: u64 = seconds(unix_timestamp);
    match instructions::start_presale::handler(ctx, now) {
        Ok(_) => Ok(()),
        Err(e) => Err(Rejection::Presale(e)),
    }
}

/// Collects the whole balance of the payment treasury for the authority.
/// With bound accounts this always succeeds; an empty treasury gives an empty
/// list of transfers.
pub fn collect_funds(ctx: &CollectFunds, pda_bump: u8) -> (r: Result<Vec<Transfer>, Rejection>)
    ensures
        match r {
            Ok(ts) => ctx.violation(pda_bump) is None && ts@ == ctx.transfers(pda_bump),
            Err(e) => verdict(ctx.violation(pda_bump), None) == Some(e),
        },
{
    match ctx.validate(pda_bump) {
        Ok(_) => {},
        Err(e) => {
            return Err(Rejection::Binding(e));
        },
    }
    match instructions::collect_funds::handler(ctx, pda_bump) {
        Ok(ts) => Ok(ts),
        Err(e) => Err(Rejection::Presale(e)),
    }
}

/// Opens the caller's vesting lock in the presale, at the one place that the
/// caller has there, with an empty locked balance of the presale's fraction
/// asset under the lock's own derived authority. Refused, with nothing
/// changed, where the asset supplied is not the one the presale sells or
/// where that place is taken.
pub fn init_vesting_account(ctx: &mut InitVesting, vesting_pda_bump: u8) -> (r: Result<
    (),
    Rejection,
>)
    ensures
        match r {
            Ok(_) => {
                &&& old(ctx).violation(vesting_pda_bump) is None
                &&& old(ctx).lock_is_derived(vesting_pda_bump)
                &&& *final(ctx) == old(ctx).allocated().after()
            },
            Err(e) => {
                &&& verdict(old(ctx).violation(vesting_pda_bump), None) == Some(e)
                &&& *final(ctx) == *old(ctx)
            },
        },
{
    match ctx.validate(vesting_pda_bump) {
        Ok(_) => {},
        Err(e) => {
            return Err(Rejection::Binding(e));
        },
    }
    ctx.allocate();
    match instructions::init_vesting_account::handler(ctx) {
        Ok(_) => Ok(()),
        Err(e) => Err(Rejection::Presale(e)),
    }
}

/// Buys `amount` fractions at the clock reading given: one access credential
/// and the price go to the treasuries, the fractions go into the buyer's
/// locked balance, and the presale counts them as sold. Refused, with nothing
/// changed, for the first reason found: the accounts first, then the rules.
pub fn purchase_fractions(
    ctx: &mut PurchaseFractions,
    presale_pda_bump: u8,
    vesting_pda_bump: u8,
    amount: u64,
    unix_timestamp: i64,
) -> (r: Result<Vec<Transfer>, Rejection>)
    ensures
        match r {
            Ok(ts) => {
                &&& verdict(
                    old(ctx).violation(presale_pda_bump, vesting_pda_bump),
                    old(ctx).broken(amount, seconds_of(unix_timestamp) as u64),
                ) is None
                &&& ts@ == old(ctx).transfers(presale_pda_bump, amount)
                &&& *final(ctx) == old(ctx).after(amount)
            },
            Err(e) => {
                &&& verdict(
                    old(ctx).violation(presale_pda_bump, vesting_pda_bump),
                    old(ctx).broken(amount, seconds_of(unix_timestamp) as u64),
                ) == Some(e)
                &&& *final(ctx) == *old(ctx)
            },
        },
{
    match ctx.validate(presale_pda_bump, vesting_pda_bump) {
        Ok(_) => {},
        Err(e) => {
            return Err(Rejection::Binding(e));
        },
    }
    let now: u64 = seconds(unix_timestamp);
    match instructions::purchase_fractions::handler(ctx, presale_pda_bump, amount, now) {
        Ok(ts) => Ok(ts),
        Err(e) => Err(Rejection::Presale(e)),
    }
}

/// Releases everything in the caller's locked balance at the clock reading
/// given, once vesting has ended: one transfer of the whole balance, or the
/// first reason against it.
pub fn unlock_fractions(ctx: &UnlockFractions, vesting_pda_bump: u8, unix_timestamp: i64) -> (r:
    Result<Vec<Transfer>, Rejection>)
    ensures
        match r {
            Ok(ts) => {
                &&& verdict(
                    ctx.violation(vesting_pda_bump),
                    ctx.broken(seconds_of(unix_timestamp) as u64),
                ) is None
                &&& ts@ == seq![ctx.release(vesting_pda_bump)]
            },
            Err(e) => verdict(
                ctx.violation(vesting_pda_bump),
                ctx.broken(seconds_of(unix_timestamp) as u64),
            ) == Some(e),
        },
        match r {
            Ok(ts) => ts@ == ctx.asked(vesting_pda_bump, seconds_of(unix_timestamp) as u64),
            Err(_) => ctx.asked(vesting_pda_bump, seconds_of(unix_timestamp) as u64).len() == 0,
        },
{
    match ctx.validate(vesting_pda_bump) {
        Ok(_) => {},
        Err(e) => {
            return Err(Rejection::Binding(e));
        },
    }
    let now: u64 = seconds(unix_timestamp);
    match instructions::unlock_fractions::handler(ctx, vesting_pda_bump, now) {
        Ok(ts) => Ok(ts),
        Err(e) => Err(Rejection::Presale(e)),
    }
}

} // verus!
