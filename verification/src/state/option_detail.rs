//! Positions and the users who own them.

use vstd::prelude::*;
use crate::errors::ErrorCode;
use crate::math::{align_decimals, aligned, checked_decimal_mul, decimal_mul_value, fit_u64};
use crate::state::account::Pubkey;
use crate::state::oracle::OraclePrice;

verus! {

/// The owner of positions and the count of those sold to them so far.
#[derive(Clone, Copy, Debug, PartialEq, Eq)]
pub struct User {
    pub owner: Pubkey,
    /// The index of the owner's latest position; the next one sold gets the
    /// index after it.
    pub option_index: u64,
}

/// A sold option contract. It is created open, is settled once, and is kept
/// afterwards as a record.
#[derive(Clone, Copy, Debug, PartialEq, Eq)]
pub struct OptionDetail {
    pub owner: Pubkey,
    pub index: u64,
    /// The mint of the custody whose price the option is written on.
    pub custody: Pubkey,
    /// The mint of the custody that holds the position's collateral.
    pub locked_custody: Pubkey,
    /// The size of the position, in whole units of the underlying.
    pub quantity: u64,
    /// The collateral locked for the position, in base units of the locked
    /// custody.
    pub amount: u64,
    /// The strike is `strike_price * 10^strike_exponent`.
    pub strike_price: u64,
    pub strike_exponent: i32,
    pub expired_date: i64,
    /// `true` for a call, `false` for a put.
    pub option_type: bool,
    pub premium: u64,
    /// `true` where the premium was paid in the underlying, `false` where it
    /// was paid in the quote asset.
    pub premium_unit: bool,
    pub valid: bool,
    /// The time of settlement, or zero while the position is open.
    pub exercised: u64,
    pub claimed: u64,
    pub profit: u64,
}

/// What a position is worth at settlement.
#[derive(Clone, Copy, Debug, PartialEq, Eq, Structural)]
pub struct Payoff {
    pub in_the_money: bool,
    /// The amount owed to the owner, in base units of the locked custody.
    pub amount: u64,
}

/// The payoff of `quantity` units struck at `strike` when the underlying
/// trades at `spot`, in an asset of `decimals` decimals. A covered position
/// pays `(spot - strike) * quantity` and is in the money from `spot >= strike`
/// on; a cash-secured one pays `(strike - spot) * quantity` and is in the money
/// from `strike >= spot` on. Out of the money the payoff is zero. Prices are
/// compared at their common exponent, so no digit of either is dropped.
pub open spec fn payoff_value(
    spot_price: nat,
    spot_exponent: int,
    strike_price: nat,
    strike_exponent: int,
    quantity: nat,
    decimals: nat,
    covered: bool,
) -> Result<Payoff, ErrorCode> {
    match aligned(spot_price, spot_exponent, strike_price, strike_exponent) {
        Err(e) => Err(e),
        Ok((spot, strike, exponent)) => {
            let in_the_money = if covered {
                spot >= strike
            } else {
                strike >= spot
            };
            let difference = if covered {
                spot - strike
            } else {
                strike - spot
            };
            if !in_the_money {
                Ok(Payoff { in_the_money: false, amount: 0 })
            } else {
                match fit_u64(
                    decimal_mul_value(difference as nat, exponent as int, quantity, 0, -decimals) as int,
                ) {
                    Ok(amount) => Ok(Payoff { in_the_money: true, amount }),
                    Err(e) => Err(e),
                }
            }
        },
    }
}

impl OptionDetail {
    /// The position's invariant: it is valid exactly while it has no
    /// settlement time.
    pub open spec fn wf(&self) -> bool {
        self.valid <==> self.exercised == 0
    }

    /// The one state that is not terminal.
    pub open spec fn is_open(&self) -> bool {
        self.valid && self.exercised == 0
    }

    /// Whether the collateral is the underlying itself. This alone decides
    /// which payoff formula applies, whatever `option_type` says.
    pub open spec fn is_covered(&self) -> bool {
        self.custody == self.locked_custody
    }

    /// The position after its settlement at time `now` for `payout`.
    pub open spec fn closed(self, now: u64, payout: u64) -> OptionDetail {
        OptionDetail { valid: false, exercised: now, claimed: payout, profit: payout, ..self }
    }

    /// What the position pays at `spot`, in an asset of `decimals` decimals.
    pub open spec fn payoff_at(&self, spot: OraclePrice, decimals: u8) -> Result<Payoff, ErrorCode> {
        payoff_value(
            spot.price as nat,
            spot.exponent as int,
            self.strike_price as nat,
            self.strike_exponent as int,
            self.quantity as nat,
            decimals as nat,
            self.is_covered(),
        )
    }

    /// Whether the position can still be settled.
    pub fn can_settle(&self) -> (open: bool)
        ensures
            open == self.is_open(),
    {
        self.valid && self.exercised == 0
    }

    /// Whether the collateral is the underlying itself.
    pub fn covered(&self) -> (covered: bool)
        ensures
            covered == self.is_covered(),
    {
        self.custody == self.locked_custody
    }

    /// Computes what the position pays at `spot`.
    pub fn payoff(&self, spot: &OraclePrice, decimals: u8) -> (r: Result<Payoff, ErrorCode>)
        ensures
            r == self.payoff_at(*spot, decimals),
    {
        compute_payoff(
            spot.price,
            spot.exponent,
            self.strike_price,
            self.strike_exponent,
            self.quantity,
            decimals,
            self.covered(),
        )
    }

    /// Marks the position settled at time `now` for `payout`.
    pub fn close(&mut self, now: u64, payout: u64)
        ensures
            *final(self) == old(self).closed(now, payout),
            now > 0 ==> final(self).wf() && !final(self).is_open(),
    {
        self.valid = false;
        self.exercised = now;
        self.claimed = payout;
        self.profit = payout;
    }
}

/// Computes the payoff of a position from plain values.
pub fn compute_payoff(
    spot_price: u64,
    spot_exponent: i32,
    strike_price: u64,
    strike_exponent: i32,
    quantity: u64,
    decimals: u8,
    covered: bool,
) -> (r: Result<Payoff, ErrorCode>)
    ensures
        r == payoff_value(
            spot_price as nat,
            spot_exponent as int,
            strike_price as nat,
            strike_exponent as int,
            quantity as nat,
            decimals as nat,
            covered,
        ),
{
    let (spot, strike, exponent) = align_decimals(
        spot_price,
        spot_exponent,
        strike_price,
        strike_exponent,
    )?;
    let in_the_money = if covered {
        spot >= strike
    } else {
        strike >= spot
    };
    if !in_the_money {
        return Ok(Payoff { in_the_money: false, amount: 0 });
    }
    let difference = if covered {
        spot - strike
    } else {
        strike - spot
    };
    let amount = checked_decimal_mul(difference, exponent, quantity, 0, -(decimals as i32))?;
    Ok(Payoff { in_the_money: true, amount })
}

} // verus!
