//! The operations of the presale, one module each: the accounts that an
//! operation is given, the check that binds them to the records, and the
//! rules by which the operation is taken or refused.

pub mod add_fractions;
pub mod collect_funds;
pub mod init_vesting_account;
pub mod initialize_presale;
pub mod purchase_fractions;
pub mod remove_fractions;
pub mod start_presale;
pub mod unlock_fractions;

pub use add_fractions::AddFractions;
pub use collect_funds::CollectFunds;
pub use init_vesting_account::InitVesting;
pub use initialize_presale::InitializePresale;
pub use purchase_fractions::PurchaseFractions;
pub use remove_fractions::RemoveFractions;
pub use start_presale::StartPresale;
pub use unlock_fractions::UnlockFractions;
