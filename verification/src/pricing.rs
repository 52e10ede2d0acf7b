//! What a purchase costs.

use vstd::prelude::*;
use crate::errors::PresaleError;

verus! {

/// A price is the number of payment units asked for this many fraction units.
pub const SCALE: u64 = 1_000_000_000;

/// The payment for `amount` fraction units at `price`: the exact product over
/// `SCALE`, rounded down.
pub open spec fn payment_due(price: u64, amount: u64) -> nat {
    ((price as nat) * (amount as nat)) / (SCALE as nat)
}

/// The product of two 64-bit quantities fits in 128 bits.
proof fn lemma_product_fits(price: u64, amount: u64)
    ensures
        (price as nat) * (amount as nat) <= u128::MAX,
{
    assert((price as nat) * (amount as nat) <= 0xffff_ffff_ffff_ffff * 0xffff_ffff_ffff_ffff)
        by (nonlinear_arith)
        requires
            price <= 0xffff_ffff_ffff_ffff,
            amount <= 0xffff_ffff_ffff_ffff,
    ;
}

/// Computes the payment for `amount` fraction units at `price`, in twice the
/// width of its arguments. A payment that does not fit in 64 bits is an error,
/// never a wrapped or shortened number.
pub fn payment_amount(price: u64, amount: u64) -> (r: Result<u64, PresaleError>)
    ensures
        payment_due(price, amount) <= u64::MAX ==> r == Ok::<u64, PresaleError>(
            payment_due(price, amount) as u64,
        ),
        payment_due(price, amount) > u64::MAX ==> r == Err::<u64, PresaleError>(
            PresaleError::NumericalOverflowError,
        ),
{
    proof {
        lemma_product_fits(price, amount);
    }
    let wide_price: u128 = price as u128;
    let wide_amount: u128 = amount as u128;
    match wide_price.checked_mul(wide_amount) {
        Some(product) => {
            let scale: u128 = SCALE as u128;
            let due: u128 = product / scale;
            if due > u64::MAX as u128 {
                Err(PresaleError::NumericalOverflowError)
            } else {
                Ok(due as u64)
            }
        },
        None => Err(PresaleError::NumericalOverflowError),
    }
}

} // verus!
