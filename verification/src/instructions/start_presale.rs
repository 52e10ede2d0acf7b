//! Opening a presale to buyers.

use vstd::prelude::*;
use crate::account::{id, program_id, PresaleAccount, Signer};
use crate::errors::{BindingError, PresaleError};
use crate::state::PresaleInfo;

verus! {

/// The accounts of a start.
#[derive(Clone, Copy, Debug, PartialEq, Eq)]
pub struct StartPresale {
    pub presale_account: PresaleAccount,
    /// The authority of the presale.
    pub authority: Signer,
}

impl StartPresale {
    /// The first thing out of order among the accounts and the caller, if
    /// anything is.
    pub open spec fn violation(&self) -> Option<BindingError> {
        if self.presale_account.owner != program_id() {
            Some(BindingError::Owner)
        } else if !self.authority.is_signer {
            Some(BindingError::NotSigner)
        } else if self.presale_account.info.authority != self.authority.key {
            Some(BindingError::HasOne)
        } else {
            None
        }
    }

    /// Checks the presale and the caller, before the rule of the operation is
    /// consulted.
    pub fn validate(&self) -> (r: Result<(), BindingError>)
        ensures
            r is Ok <==> self.violation() is None,
            r matches Err(e) ==> self.violation() == Some(e),
    {
        let program = id();
        if self.presale_account.owner != program {
            return Err(BindingError::Owner);
        }
        if !self.authority.is_signer {
            return Err(BindingError::NotSigner);
        }
        if self.presale_account.info.authority != self.authority.key {
            return Err(BindingError::HasOne);
        }
        Ok(())
    }

    /// The rule that a start breaks, if it breaks it: a presale starts once.
    pub open spec fn broken(&self) -> Option<PresaleError> {
        if self.presale_account.info.started {
            Some(PresaleError::PresaleAlreadyStarted)
        } else {
            None
        }
    }

    /// The presale once it is started at time `now`.
    pub open spec fn presale_after(&self, now: u64) -> PresaleInfo {
        PresaleInfo { started: true, presale_start: now, ..self.presale_account.info }
    }

    /// The accounts as a start at time `now` leaves them.
    pub open spec fn after(&self, now: u64) -> StartPresale {
        StartPresale {
            presale_account: PresaleAccount {
                info: self.presale_after(now),
                ..self.presale_account
            },
            ..*self
        }
    }

    /// The accounts as a call at time `now` leaves them, taken or refused.
    pub open spec fn outcome(&self, now: u64) -> StartPresale {
        if self.violation() is None && self.broken() is None {
            self.after(now)
        } else {
            *self
        }
    }
}

/// Starts the presale at time `now`, unless it was started before; then
/// nothing changes, its start time least of all.
pub fn handler(ctx: &mut StartPresale, now: u64) -> (r: Result<(), PresaleError>)
    ensures
        match r {
            Ok(_) => old(ctx).broken() is None && *final(ctx) == old(ctx).after(now),
            Err(e) => old(ctx).broken() == Some(e) && *final(ctx) == *old(ctx),
        },
{
    if ctx.presale_account.info.started {
        return Err(PresaleError::PresaleAlreadyStarted);
    }
    ctx.presale_account.info.presale_start = now;
    ctx.presale_account.info.started = true;
    Ok(())
}

} // verus!
