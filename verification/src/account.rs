//! What an operation is shown of the accounts supplied to it.

use vstd::prelude::*;
use crate::address::Address;
use crate::state::{PresaleInfo, VestingInfo};

verus! {

/// A custodial account: a balance of one asset, movable by its owner.
#[derive(Clone, Copy, Debug, PartialEq, Eq)]
pub struct TokenAccount {
    /// Where the account is.
    pub key: Address,
    /// The asset it holds.
    pub mint: Address,
    /// Who may move the balance.
    pub owner: Address,
    pub amount: u64,
}

/// A party to the call, and whether it has proved its identity by signing.
#[derive(Clone, Copy, Debug, PartialEq, Eq)]
pub struct Signer {
    pub key: Address,
    pub is_signer: bool,
}

/// The place of a presale record: where it is, which program keeps it, and
/// what it holds.
#[derive(Clone, Copy, Debug, PartialEq, Eq)]
pub struct PresaleAccount {
    pub key: Address,
    pub owner: Address,
    pub info: PresaleInfo,
}

/// The place of a vesting lock: where it is, which program keeps it, and what
/// it holds.
#[derive(Clone, Copy, Debug, PartialEq, Eq)]
pub struct VestingAccount {
    pub key: Address,
    pub owner: Address,
    pub info: VestingInfo,
}

/// The address of the ledger's own system program, which keeps every place
/// that holds no record yet: thirty-two zero bytes.
pub open spec fn system_program() -> Address {
    Address {
        bytes: [
            0u8, 0u8, 0u8, 0u8, 0u8, 0u8, 0u8, 0u8, 0u8, 0u8, 0u8, 0u8, 0u8, 0u8, 0u8, 0u8, 0u8, 0u8, 0u8,
            0u8, 0u8, 0u8, 0u8, 0u8, 0u8, 0u8, 0u8, 0u8, 0u8, 0u8, 0u8, 0u8,
        ],
    }
}

/// The address of this protocol, by which its records and derived
/// authorities are known.
pub open spec fn program_id() -> Address {
    Address {
        bytes: [
            204u8, 149u8, 82u8, 144u8, 243u8, 14u8, 149u8, 44u8, 200u8, 150u8, 247u8, 119u8,
            173u8, 42u8, 246u8, 157u8, 59u8, 105u8, 244u8, 191u8, 137u8, 42u8, 194u8, 40u8, 27u8,
            81u8, 74u8, 24u8, 251u8, 233u8, 16u8, 159u8,
        ],
    }
}

/// The address of the system program.
pub fn system_id() -> (r: Address)
    ensures
        r == system_program(),
{
    Address {
        bytes: [
            0u8, 0u8, 0u8, 0u8, 0u8, 0u8, 0u8, 0u8, 0u8, 0u8, 0u8, 0u8, 0u8, 0u8, 0u8, 0u8, 0u8, 0u8, 0u8,
            0u8, 0u8, 0u8, 0u8, 0u8, 0u8, 0u8, 0u8, 0u8, 0u8, 0u8, 0u8, 0u8,
        ],
    }
}

/// The address of this protocol.
pub fn id() -> (r: Address)
    ensures
        r == program_id(),
{
    Address {
        bytes: [
            204u8, 149u8, 82u8, 144u8, 243u8, 14u8, 149u8, 44u8, 200u8, 150u8, 247u8, 119u8,
            173u8, 42u8, 246u8, 157u8, 59u8, 105u8, 244u8, 191u8, 137u8, 42u8, 194u8, 40u8, 27u8,
            81u8, 74u8, 24u8, 251u8, 233u8, 16u8, 159u8,
        ],
    }
}

/// This protocol is not the system program: a place that it keeps is taken.
pub proof fn lemma_program_is_not_system()
    ensures
        program_id() != system_program(),
{
    assert(program_id().bytes[0] == 204u8);
    assert(system_program().bytes[0] == 0u8);
}

} // verus!
