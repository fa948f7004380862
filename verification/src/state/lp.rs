//! The liquidity pool of the two assets that options are written on and paid
//! in: wrapped SOL, the underlying, and USDC, the quote asset.

use vstd::prelude::*;
use crate::state::account::Pubkey;
use crate::state::custody::Custody;

verus! {

/// The pool's two custodies.
#[derive(Clone, Copy, Debug, PartialEq, Eq)]
pub struct Lp {
    /// Set once by `initialize`, never cleared.
    pub is_initialized: bool,
    /// The custody of the underlying.
    pub sol: Custody,
    /// The custody of the quote asset.
    pub usdc: Custody,
}

/// The pool's administrator.
#[derive(Clone, Copy, Debug, PartialEq, Eq)]
pub struct Users {
    pub admin: Pubkey,
}

impl Lp {
    /// The pool's invariant: two custodies of two different assets, each
    /// holding at least what it has locked.
    pub open spec fn wf(&self) -> bool {
        &&& self.sol.wf()
        &&& self.usdc.wf()
        &&& self.sol.mint != self.usdc.mint
    }

    /// The custody of the underlying if `is_sol`, else that of the quote
    /// asset.
    pub open spec fn custody(&self, is_sol: bool) -> Custody {
        if is_sol {
            self.sol
        } else {
            self.usdc
        }
    }

    /// The pool with one custody replaced.
    pub open spec fn with_custody(self, is_sol: bool, custody: Custody) -> Lp {
        if is_sol {
            Lp { sol: custody, ..self }
        } else {
            Lp { usdc: custody, ..self }
        }
    }

    /// All that the pool holds, over both assets.
    pub open spec fn total_balance(&self) -> int {
        self.sol.total_balance + self.usdc.total_balance
    }

    /// All that the pool has locked, over both assets.
    pub open spec fn locked_balance(&self) -> int {
        self.sol.locked_balance + self.usdc.locked_balance
    }

    /// Whether the invariant holds of this record.
    pub fn is_valid(&self) -> (ok: bool)
        ensures
            ok == self.wf(),
    {
        self.sol.is_valid() && self.usdc.is_valid() && !(self.sol.mint == self.usdc.mint)
    }

    /// Reads one of the two custodies.
    pub fn get_custody(&self, is_sol: bool) -> (custody: Custody)
        ensures
            custody == self.custody(is_sol),
    {
        if is_sol {
            self.sol
        } else {
            self.usdc
        }
    }

    /// Replaces one of the two custodies.
    pub fn set_custody(&mut self, is_sol: bool, custody: Custody)
        ensures
            *final(self) == old(self).with_custody(is_sol, custody),
    {
        if is_sol {
            self.sol = custody;
        } else {
            self.usdc = custody;
        }
    }
}

} // verus!
