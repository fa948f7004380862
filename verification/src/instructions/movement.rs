//! Deposits and withdrawals: movements of one asset between a caller's
//! token account and the pool.

use vstd::prelude::*;
use crate::errors::{
    admin_authority,
    ErrorCode,
    invalid_custody_token,
    overflow,
    pool_balance_too_low,
    PoolError,
    signer_balance_too_low,
};
use crate::math::checked_add;
use crate::state::account::TokenAccount;
use crate::state::custody::Custody;
use crate::state::transition;

verus! {

/// One side of the pool with the two token accounts that a movement of that
/// asset goes between.
#[derive(Clone, Copy, Debug, PartialEq, Eq)]
pub struct Movement {
    pub custody: Custody,
    /// The pool's token account.
    pub lp_ata: TokenAccount,
    /// The caller's token account.
    pub signer_ata: TokenAccount,
}

impl Movement {
    /// What withdrawing `amount` prescribes. In order: the two token
    /// accounts must be of the custody's asset; the pool's token account
    /// must hold the amount; the caller must be the administrator; the
    /// amount must be free in the custody, not locked; and the caller's
    /// token account must have room for it.
    pub open spec fn withdrawn(self, amount: u64, is_admin: bool) -> Result<(Movement, ()), ErrorCode> {
        if self.lp_ata.mint != self.custody.mint || self.signer_ata.mint != self.custody.mint {
            Err(invalid_custody_token())
        } else if self.lp_ata.amount < amount {
            Err(pool_balance_too_low())
        } else if !is_admin {
            Err(admin_authority())
        } else if self.custody.available() < amount {
            Err(pool_balance_too_low())
        } else if self.signer_ata.amount + amount > u64::MAX {
            Err(overflow())
        } else {
            Ok(
                (
                    Movement {
                        custody: Custody {
                            total_balance: (self.custody.total_balance - amount) as u64,
                            ..self.custody
                        },
                        lp_ata: TokenAccount {
                            amount: (self.lp_ata.amount - amount) as u64,
                            ..self.lp_ata
                        },
                        signer_ata: TokenAccount {
                            amount: (self.signer_ata.amount + amount) as u64,
                            ..self.signer_ata
                        },
                    },
                    (),
                ),
            )
        }
    }

    /// Moves `amount` of free balance from the pool to the caller.
    pub fn withdraw(&mut self, amount: u64, is_admin: bool) -> (r: Result<(), ErrorCode>)
        ensures
            transition(old(self).withdrawn(amount, is_admin), *old(self), *final(self), r),
            old(self).custody.wf() ==> final(self).custody.wf(),
    {
        if !(self.lp_ata.mint == self.custody.mint) || !(self.signer_ata.mint
            == self.custody.mint) {
            return Err(ErrorCode::Pool(PoolError::InvalidCustodyTokenError));
        }
        if self.lp_ata.amount < amount {
            return Err(ErrorCode::Pool(PoolError::InvalidPoolBalanceError));
        }
        if !is_admin {
            return Err(ErrorCode::Pool(PoolError::AdminAuthorityError));
        }
        if !self.custody.is_valid() || self.custody.free_balance() < amount {
            return Err(ErrorCode::Pool(PoolError::InvalidPoolBalanceError));
        }
        let received = checked_add(self.signer_ata.amount, amount)?;
        self.custody.total_balance = self.custody.total_balance - amount;
        self.lp_ata.amount = self.lp_ata.amount - amount;
        self.signer_ata.amount = received;
        Ok(())
    }

    /// What depositing `amount` prescribes. In order: the two token accounts
    /// must be of the custody's asset; the caller's token account must hold
    /// the amount; and the custody and the pool's token account must have
    /// room for it.
    pub open spec fn deposited(self, amount: u64) -> Result<(Movement, ()), ErrorCode> {
        if self.lp_ata.mint != self.custody.mint || self.signer_ata.mint != self.custody.mint {
            Err(invalid_custody_token())
        } else if self.signer_ata.amount < amount {
            Err(signer_balance_too_low())
        } else if self.custody.total_balance + amount > u64::MAX || self.lp_ata.amount + amount
            > u64::MAX {
            Err(overflow())
        } else {
            Ok(
                (
                    Movement {
                        custody: Custody {
                            total_balance: (self.custody.total_balance + amount) as u64,
                            ..self.custody
                        },
                        lp_ata: TokenAccount {
                            amount: (self.lp_ata.amount + amount) as u64,
                            ..self.lp_ata
                        },
                        signer_ata: TokenAccount {
                            amount: (self.signer_ata.amount - amount) as u64,
                            ..self.signer_ata
                        },
                    },
                    (),
                ),
            )
        }
    }

    /// Moves `amount` from the caller into the pool.
    pub fn deposit(&mut self, amount: u64) -> (r: Result<(), ErrorCode>)
        ensures
            transition(old(self).deposited(amount), *old(self), *final(self), r),
            old(self).custody.wf() ==> final(self).custody.wf(),
    {
        if !(self.lp_ata.mint == self.custody.mint) || !(self.signer_ata.mint
            == self.custody.mint) {
            return Err(ErrorCode::Pool(PoolError::InvalidCustodyTokenError));
        }
        if self.signer_ata.amount < amount {
            return Err(ErrorCode::Pool(PoolError::InvalidSignerBalanceError));
        }
        let total = checked_add(self.custody.total_balance, amount)?;
        let pooled = checked_add(self.lp_ata.amount, amount)?;
        self.custody.total_balance = total;
        self.lp_ata.amount = pooled;
        self.signer_ata.amount = self.signer_ata.amount - amount;
        Ok(())
    }
}

} // verus!
