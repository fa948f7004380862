//! The custody ledger: one asset's pooled balance and the part of it that is
//! locked behind open positions.

use vstd::prelude::*;
use crate::errors::{
    ErrorCode,
    insufficient_locked_balance,
    insufficient_pool_balance,
    OptionError,
    overflow,
};
use crate::math::checked_add;
use crate::state::account::Pubkey;
use crate::state::transition;

verus! {

/// The collateral account of one asset in a pool.
#[derive(Clone, Copy, Debug, PartialEq, Eq)]
pub struct Custody {
    /// The asset's mint: the custody's identifier.
    pub mint: Pubkey,
    /// The oracle account that quotes the asset.
    pub oracle: Pubkey,
    pub decimals: u8,
    /// All that the pool holds of the asset.
    pub total_balance: u64,
    /// The part of `total_balance` that backs open positions.
    pub locked_balance: u64,
}

impl Custody {
    /// The ledger's invariant: nothing is locked that the pool does not hold.
    pub open spec fn wf(&self) -> bool {
        self.locked_balance <= self.total_balance
    }

    /// The balance that no position claims.
    pub open spec fn available(&self) -> int {
        self.total_balance - self.locked_balance
    }

    /// What `lock` prescribes.
    pub open spec fn locked(self, amount: u64) -> Result<(Custody, ()), ErrorCode> {
        if self.available() >= amount {
            Ok((Custody { locked_balance: (self.locked_balance + amount) as u64, ..self }, ()))
        } else {
            Err(insufficient_pool_balance())
        }
    }

    /// What `unlock` prescribes.
    pub open spec fn unlocked(self, amount: u64) -> Result<(Custody, ()), ErrorCode> {
        if amount <= self.locked_balance {
            Ok((Custody { locked_balance: (self.locked_balance - amount) as u64, ..self }, ()))
        } else {
            Err(insufficient_locked_balance())
        }
    }

    /// What `credit` prescribes.
    pub open spec fn credited(self, amount: u64) -> Result<(Custody, ()), ErrorCode> {
        if self.total_balance + amount <= u64::MAX {
            Ok((Custody { total_balance: (self.total_balance + amount) as u64, ..self }, ()))
        } else {
            Err(overflow())
        }
    }

    /// What `debit` prescribes.
    pub open spec fn debited(self, amount: u64) -> Result<(Custody, ()), ErrorCode> {
        if self.available() >= amount {
            Ok((Custody { total_balance: (self.total_balance - amount) as u64, ..self }, ()))
        } else {
            Err(insufficient_pool_balance())
        }
    }

    /// A custody of the given asset that holds nothing yet.
    pub fn new(mint: Pubkey, oracle: Pubkey, decimals: u8) -> (custody: Custody)
        ensures
            custody == (Custody { mint, oracle, decimals, total_balance: 0, locked_balance: 0 }),
            custody.wf(),
    {
        Custody { mint, oracle, decimals, total_balance: 0, locked_balance: 0 }
    }

    /// Whether two records are the same in every field.
    pub fn same_record(&self, other: &Custody) -> (same: bool)
        ensures
            same == (*self == *other),
    {
        self.mint == other.mint && self.oracle == other.oracle && self.decimals == other.decimals
            && self.total_balance == other.total_balance && self.locked_balance
            == other.locked_balance
    }

    /// Whether the invariant holds of this record.
    pub fn is_valid(&self) -> (ok: bool)
        ensures
            ok == self.wf(),
    {
        self.locked_balance <= self.total_balance
    }

    /// The balance that no position claims; zero where the record is broken.
    pub fn free_balance(&self) -> (free: u64)
        ensures
            self.wf() ==> free == self.available(),
            !self.wf() ==> free == 0,
    {
        if self.locked_balance <= self.total_balance {
            self.total_balance - self.locked_balance
        } else {
            0
        }
    }

    /// Locks `amount` of the free balance behind a position.
    pub fn lock(&mut self, amount: u64) -> (r: Result<(), ErrorCode>)
        ensures
            transition(old(self).locked(amount), *old(self), *final(self), r),
            old(self).wf() ==> final(self).wf(),
    {
        if self.locked_balance <= self.total_balance && self.total_balance - self.locked_balance
            >= amount {
            self.locked_balance = self.locked_balance + amount;
            Ok(())
        } else {
            Err(ErrorCode::OptionBook(OptionError::InvalidPoolBalanceError))
        }
    }

    /// Releases `amount` of the locked balance.
    pub fn unlock(&mut self, amount: u64) -> (r: Result<(), ErrorCode>)
        ensures
            transition(old(self).unlocked(amount), *old(self), *final(self), r),
            old(self).wf() ==> final(self).wf(),
    {
        if amount <= self.locked_balance {
            self.locked_balance = self.locked_balance - amount;
            Ok(())
        } else {
            Err(ErrorCode::OptionBook(OptionError::InvalidLockedBalanceError))
        }
    }

    /// Adds `amount` to the pooled balance.
    pub fn credit(&mut self, amount: u64) -> (r: Result<(), ErrorCode>)
        ensures
            transition(old(self).credited(amount), *old(self), *final(self), r),
            old(self).wf() ==> final(self).wf(),
    {
        self.total_balance = checked_add(self.total_balance, amount)?;
        Ok(())
    }

    /// Takes `amount` out of the free balance.
    pub fn debit(&mut self, amount: u64) -> (r: Result<(), ErrorCode>)
        ensures
            transition(old(self).debited(amount), *old(self), *final(self), r),
            old(self).wf() ==> final(self).wf(),
    {
        if self.locked_balance <= self.total_balance && self.total_balance - self.locked_balance
            >= amount {
            self.total_balance = self.total_balance - amount;
            Ok(())
        } else {
            Err(ErrorCode::OptionBook(OptionError::InvalidPoolBalanceError))
        }
    }
}

/// Every transition of the custody ledger keeps the invariant
/// `0 <= locked_balance <= total_balance`.
pub proof fn custody_invariant_preserved(custody: Custody, amount: u64)
    requires
        custody.wf(),
    ensures
        custody.locked(amount) matches Ok((c, _)) ==> c.wf(),
        custody.unlocked(amount) matches Ok((c, _)) ==> c.wf(),
        custody.credited(amount) matches Ok((c, _)) ==> c.wf(),
        custody.debited(amount) matches Ok((c, _)) ==> c.wf(),
{
}

} // verus!
