//! The records that persist between operations.

use vstd::prelude::*;
use crate::address::Address;

verus! {

/// Bytes of a stored vesting lock: two addresses.
pub const VESTING_INFO_SIZE: usize = 32 + 32;

/// Bytes of a stored presale: seven addresses, six amounts and times, one
/// flag, in the order of the fields.
pub const PRESALE_INFO_SIZE: usize = 32 + 32 + 32 + 32 + 8 + 32 + 32 + 32 + 8 + 8 + 8 + 1 + 8 + 8;

/// A buyer's lock in one presale: who may unlock it, and where the locked
/// balance is held.
#[derive(Clone, Copy, Debug, PartialEq, Eq)]
pub struct VestingInfo {
    pub signer: Address,
    pub vesting_account: Address,
}

/// One listing of fraction tokens for sale.
#[derive(Clone, Copy, Debug, PartialEq, Eq)]
pub struct PresaleInfo {
    pub fraction_treasury: Address,
    pub payment_treasury: Address,
    pub access_treasury: Address,
    pub authority: Address,
    /// Fraction units sold so far.
    pub fractions_sold: u64,
    pub fraction_mint: Address,
    pub payment_mint: Address,
    pub access_mint: Address,
    /// Payment units per `SCALE` fraction units.
    pub price: u64,
    /// Most fraction units that one purchase may ask for.
    pub max_amount: u64,
    /// When the presale was started; zero until then.
    pub presale_start: u64,
    pub started: bool,
    /// From this time on no purchase is taken.
    pub presale_end: u64,
    /// From this time on locked fractions may be unlocked.
    pub vesting_end: u64,
}

impl PresaleInfo {
    /// What holds of every presale from its creation on: it has no start time
    /// before it is started, and it sells one asset for another.
    pub open spec fn wf(&self) -> bool {
        &&& !self.started ==> self.presale_start == 0
        &&& self.fraction_mint != self.payment_mint
    }

    /// `self` has the terms that `earlier` was created with: the same
    /// treasuries, authority, assets, price, ceiling and times.
    pub open spec fn same_terms(&self, earlier: PresaleInfo) -> bool {
        &&& self.fraction_treasury == earlier.fraction_treasury
        &&& self.payment_treasury == earlier.payment_treasury
        &&& self.access_treasury == earlier.access_treasury
        &&& self.authority == earlier.authority
        &&& self.fraction_mint == earlier.fraction_mint
        &&& self.payment_mint == earlier.payment_mint
        &&& self.access_mint == earlier.access_mint
        &&& self.price == earlier.price
        &&& self.max_amount == earlier.max_amount
        &&& self.presale_end == earlier.presale_end
        &&& self.vesting_end == earlier.vesting_end
    }

    /// `self` is a state that `earlier` may have moved to: the terms stand, a
    /// started presale stays started with its start time, and the count of
    /// fractions sold has not gone down.
    pub open spec fn follows(&self, earlier: PresaleInfo) -> bool {
        &&& self.same_terms(earlier)
        &&& earlier.started ==> self.started && self.presale_start == earlier.presale_start
        &&& self.fractions_sold >= earlier.fractions_sold
    }
}

} // verus!
