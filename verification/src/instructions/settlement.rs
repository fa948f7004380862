//! The settlement engine: what closing a position does to the position, to
//! the custody that holds its collateral and to the two token accounts that
//! the payout moves between. Manual exercise, automatic exercise and expiry
//! all end here.

use vstd::prelude::*;
use crate::errors::{
    already_exercised,
    ErrorCode,
    insufficient_locked_balance,
    insufficient_pool_balance,
    invalid_custody_state,
    invalid_mint,
    invalid_option_index,
    invalid_owner,
    invalid_price,
    not_valid,
    OptionError,
    overflow,
    PoolError,
};
use crate::math::checked_add;
use crate::state::account::{Pubkey, TokenAccount};
use crate::state::custody::Custody;
use crate::state::option_detail::{OptionDetail, User};
use crate::state::oracle::OraclePrice;
use crate::state::transition;

verus! {

/// The records that a settlement reads and changes.
#[derive(Clone, Copy, Debug, PartialEq, Eq)]
pub struct Settlement {
    pub option_detail: OptionDetail,
    /// The custody of the underlying, whose price decides the payoff.
    pub custody: Custody,
    /// The custody that holds the position's collateral. It is the same
    /// record as `custody` where the position is covered.
    pub locked_custody: Custody,
    /// The pool's token account of the locked custody's asset.
    pub locked_custody_token_account: TokenAccount,
    /// The owner's token account, which receives the payout.
    pub funding_account: TokenAccount,
}

/// Why a position cannot be settled under `option_index` on behalf of
/// `owner`, if it cannot: the index is beyond the user's counter or is not
/// the position's own, the position was settled before, or it belongs to
/// someone else.
pub open spec fn position_error(
    user: User,
    option_detail: OptionDetail,
    option_index: u64,
    owner: Pubkey,
) -> Option<ErrorCode> {
    if user.option_index < option_index || option_detail.index != option_index {
        Some(invalid_option_index())
    } else if option_detail.exercised != 0 {
        Some(already_exercised())
    } else if !option_detail.valid {
        Some(not_valid())
    } else if option_detail.owner != owner || user.owner != owner {
        Some(invalid_owner())
    } else {
        None
    }
}

/// Checks that a position can be settled under `option_index` on behalf of
/// `owner`.
pub fn check_position(user: &User, option_detail: &OptionDetail, option_index: u64, owner: &Pubkey) -> (r:
    Result<(), ErrorCode>)
    ensures
        r == (match position_error(*user, *option_detail, option_index, *owner) {
            Some(e) => Err::<(), ErrorCode>(e),
            None => Ok::<(), ErrorCode>(()),
        }),
{
    if user.option_index < option_index || option_detail.index != option_index {
        Err(ErrorCode::OptionBook(OptionError::InvalidOptionIndexError))
    } else if option_detail.exercised != 0 {
        Err(ErrorCode::OptionBook(OptionError::OptionAlreadyExercised))
    } else if !option_detail.valid {
        Err(ErrorCode::OptionBook(OptionError::OptionNotValid))
    } else if !(option_detail.owner == *owner) || !(user.owner == *owner) {
        Err(ErrorCode::OptionBook(OptionError::InvalidOwner))
    } else {
        Ok(())
    }
}

impl Settlement {
    /// Whether the collateral is the underlying itself.
    pub open spec fn covered(&self) -> bool {
        self.custody.mint == self.locked_custody.mint
    }

    /// What is wrong with the accounts handed in, if anything: a custody or a
    /// token account of another asset than the position's, or two different
    /// records for the one custody of a covered position.
    pub open spec fn accounts_error(&self) -> Option<ErrorCode> {
        if self.option_detail.custody != self.custody.mint || self.option_detail.locked_custody
            != self.locked_custody.mint || self.locked_custody_token_account.mint
            != self.locked_custody.mint || self.funding_account.mint != self.locked_custody.mint {
            Some(invalid_mint())
        } else if self.covered() && self.custody != self.locked_custody {
            Some(invalid_custody_state())
        } else {
            None
        }
    }

    /// The records after the position is closed at time `now` for `payout`:
    /// the collateral is released, the payout leaves the custody's free
    /// balance and moves from the pool's token account to the owner's.
    pub open spec fn paid_out(self, now: u64, payout: u64) -> Result<(Settlement, ()), ErrorCode> {
        match self.locked_custody.unlocked(self.option_detail.amount) {
            Err(e) => Err(e),
            Ok((unlocked, _)) => match unlocked.debited(payout) {
                Err(e) => Err(e),
                Ok((custody, _)) => {
                    if self.locked_custody_token_account.amount < payout {
                        Err(insufficient_pool_balance())
                    } else if self.funding_account.amount + payout > u64::MAX {
                        Err(overflow())
                    } else {
                        Ok(
                            (
                                Settlement {
                                    option_detail: self.option_detail.closed(now, payout),
                                    custody: if self.covered() {
                                        custody
                                    } else {
                                        self.custody
                                    },
                                    locked_custody: custody,
                                    locked_custody_token_account: TokenAccount {
                                        amount: (self.locked_custody_token_account.amount
                                            - payout) as u64,
                                        ..self.locked_custody_token_account
                                    },
                                    funding_account: TokenAccount {
                                        amount: (self.funding_account.amount + payout) as u64,
                                        ..self.funding_account
                                    },
                                },
                                (),
                            ),
                        )
                    }
                },
            },
        }
    }

    /// What settling at `spot` prescribes. Where `must_be_in_the_money` is
    /// set, a position that is out of the money is rejected; where it is not,
    /// such a position is closed for a payout of zero.
    pub open spec fn settled(self, spot: OraclePrice, now: u64, must_be_in_the_money: bool) -> Result<
        (Settlement, ()),
        ErrorCode,
    > {
        match self.accounts_error() {
            Some(e) => Err(e),
            None => {
                if self.locked_custody.locked_balance < self.option_detail.amount {
                    Err(insufficient_locked_balance())
                } else {
                    match self.option_detail.payoff_at(spot, self.locked_custody.decimals) {
                        Err(e) => Err(e),
                        Ok(payoff) => {
                            if must_be_in_the_money && !payoff.in_the_money {
                                Err(invalid_price())
                            } else {
                                self.paid_out(now, payoff.amount)
                            }
                        },
                    }
                }
            },
        }
    }

    /// Settles the position at `spot`.
    pub fn settle(&mut self, spot: &OraclePrice, now: u64, must_be_in_the_money: bool) -> (r: Result<
        (),
        ErrorCode,
    >)
        ensures
            transition(
                old(self).settled(*spot, now, must_be_in_the_money),
                *old(self),
                *final(self),
                r,
            ),
            old(self).custody.wf() && old(self).locked_custody.wf() ==> final(self).custody.wf()
                && final(self).locked_custody.wf(),
            r is Ok ==> !final(self).option_detail.valid && final(self).option_detail.exercised
                == now,
    {
        if !(self.option_detail.custody == self.custody.mint) || !(self.option_detail.locked_custody
            == self.locked_custody.mint) || !(self.locked_custody_token_account.mint
            == self.locked_custody.mint) || !(self.funding_account.mint
            == self.locked_custody.mint) {
            return Err(ErrorCode::OptionBook(OptionError::InvalidMintError));
        }
        let covered = self.custody.mint == self.locked_custody.mint;
        if covered && !self.custody.same_record(&self.locked_custody) {
            return Err(ErrorCode::Pool(PoolError::InvalidCustodyState));
        }
        if self.locked_custody.locked_balance < self.option_detail.amount {
            return Err(ErrorCode::OptionBook(OptionError::InvalidLockedBalanceError));
        }
        let payoff = self.option_detail.payoff(spot, self.locked_custody.decimals)?;
        if must_be_in_the_money && !payoff.in_the_money {
            return Err(ErrorCode::OptionBook(OptionError::InvalidPriceRequirementError));
        }
        let mut custody = self.locked_custody;
        custody.unlock(self.option_detail.amount)?;
        custody.debit(payoff.amount)?;
        if self.locked_custody_token_account.amount < payoff.amount {
            return Err(ErrorCode::OptionBook(OptionError::InvalidPoolBalanceError));
        }
        let funded = checked_add(self.funding_account.amount, payoff.amount)?;
        self.option_detail.close(now, payoff.amount);
        self.locked_custody = custody;
        if covered {
            self.custody = custody;
        }
        self.locked_custody_token_account.amount = self.locked_custody_token_account.amount
            - payoff.amount;
        self.funding_account.amount = funded;
        Ok(())
    }
}

} // verus!
