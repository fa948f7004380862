//! Sale: a buyer opens a position, pays its premium into the pool and has
//! the pool lock the collateral that backs it.

use vstd::prelude::*;
use crate::errors::{
    ContractError,
    ErrorCode,
    insufficient_signer_balance,
    invalid_mint,
    invalid_option_index,
    invalid_oracle_account,
    invalid_owner,
    invalid_pool_state,
    invalid_price,
    invalid_time,
    OptionError,
    overflow,
    PoolError,
};
use crate::math::{
    align_decimals,
    aligned,
    checked_add,
    checked_decimal_ceil_div,
    checked_decimal_ceil_mul,
    checked_decimal_mul,
    checked_mul,
    decimal_ceil_div_value,
    decimal_ceil_mul_value,
    decimal_mul_value,
    fit_u64,
    lemma_ceil_div_bounds,
    lemma_ceil_div_monotonic,
    lemma_pow10_positive,
    pow10,
    scale_to_exponent,
    scaled_value,
};
use crate::state::account::{Pubkey, TokenAccount};
use crate::state::lp::Lp;
use crate::state::option_detail::{OptionDetail, User};
use crate::state::oracle::{normalized, OraclePrice, OracleQuote};
use crate::state::transition;
use crate::utils::{
    lemma_premium_grows_with_time,
    lemma_premium_positive,
    premium_value,
    price_premium,
};

verus! {

/// What a buyer asks for.
#[derive(Clone, Copy, Debug, PartialEq, Eq)]
pub struct SellOrder {
    /// The size of the position, in whole units of the underlying: one or
    /// more.
    pub quantity: u64,
    /// The strike is `strike_price * 10^strike_exponent`.
    pub strike_price: u64,
    pub strike_exponent: i32,
    /// The time at which the position expires, in seconds: later than now.
    pub expired_time: i64,
    /// The index that the position is to get: the one after the buyer's
    /// latest.
    pub option_index: u64,
    /// `true` for a call, covered by the underlying; `false` for a put,
    /// secured by the quote asset.
    pub is_call: bool,
    /// `true` to pay the premium in the underlying, `false` to pay it in the
    /// quote asset.
    pub pay_sol: bool,
}

/// What a sale costs and what it locks.
#[derive(Clone, Copy, Debug, PartialEq, Eq, Structural)]
pub struct Quote {
    /// The premium, in base units of the asset that the buyer pays in.
    pub premium: u64,
    /// The collateral, in base units of the asset that backs the position.
    pub notional: u64,
}

/// The accounts of a sale.
#[derive(Clone, Copy, Debug, PartialEq, Eq)]
pub struct SellOption {
    /// The buyer.
    pub signer: Pubkey,
    pub signer_ata_wsol: TokenAccount,
    pub signer_ata_usdc: TokenAccount,
    pub lp: Lp,
    pub lp_ata_wsol: TokenAccount,
    pub lp_ata_usdc: TokenAccount,
    /// The buyer's record: none before the buyer's first sale, which creates
    /// it.
    pub user: Option<User>,
    /// The slot of the new position: empty before the sale.
    pub option_detail: Option<OptionDetail>,
    /// The quote of the underlying, read from its oracle account.
    pub pyth_price_account: OracleQuote,
    /// The current time, in seconds.
    pub current_time: i64,
}

/// The seconds left until `expired_time`; none once it has passed.
pub open spec fn time_to_expiry(expired_time: i64, now: i64) -> nat {
    if expired_time > now {
        (expired_time - now) as nat
    } else {
        0
    }
}

/// The premium of the whole position in the asset that the buyer pays in,
/// from the premium `unit` of one unit of the underlying at `exponent`. Paid
/// in the quote asset it is `unit * quantity`; paid in the underlying it is
/// that value divided by the spot price. Either is rounded up to the asset's
/// base unit, so that what has a price is never had for nothing.
pub open spec fn premium_amount(
    unit: nat,
    exponent: int,
    spot: nat,
    quantity: nat,
    pay_sol: bool,
    decimals: nat,
) -> Result<u64, ErrorCode> {
    if pay_sol {
        if spot == 0 || unit * quantity > u64::MAX {
            Err(overflow())
        } else {
            fit_u64(
                decimal_ceil_div_value(unit * quantity, exponent, spot, exponent, -decimals) as int,
            )
        }
    } else {
        fit_u64(decimal_ceil_mul_value(unit, exponent, quantity, 0, -decimals) as int)
    }
}

/// The collateral of a position. A call locks the underlying itself:
/// `quantity` units. A put locks what exercising it costs: `quantity * strike`
/// of the quote asset. Either is in base units of the asset.
pub open spec fn notional_amount(
    quantity: nat,
    strike: nat,
    exponent: int,
    is_call: bool,
    decimals: nat,
) -> Result<u64, ErrorCode> {
    if is_call {
        fit_u64(scaled_value(quantity, 0, -decimals) as int)
    } else {
        fit_u64(decimal_mul_value(quantity, 0, strike, exponent, -decimals) as int)
    }
}

/// The premium and the collateral of `order` at `spot`, for a pool whose
/// underlying has `sol_decimals` decimals and whose quote asset has
/// `usdc_decimals`.
pub open spec fn sale_quote(
    spot: OraclePrice,
    order: SellOrder,
    now: i64,
    sol_decimals: u8,
    usdc_decimals: u8,
) -> Result<Quote, ErrorCode> {
    match aligned(
        spot.price as nat,
        spot.exponent as int,
        order.strike_price as nat,
        order.strike_exponent as int,
    ) {
        Err(e) => Err(e),
        Ok((price, strike, exponent)) => match premium_value(
            price as nat,
            strike as nat,
            time_to_expiry(order.expired_time, now),
            order.is_call,
        ) {
            Err(e) => Err(e),
            Ok(unit) => match premium_amount(
                unit as nat,
                exponent as int,
                price as nat,
                order.quantity as nat,
                order.pay_sol,
                (if order.pay_sol {
                    sol_decimals
                } else {
                    usdc_decimals
                }) as nat,
            ) {
                Err(e) => Err(e),
                Ok(premium) => match notional_amount(
                    order.quantity as nat,
                    strike as nat,
                    exponent as int,
                    order.is_call,
                    (if order.is_call {
                        sol_decimals
                    } else {
                        usdc_decimals
                    }) as nat,
                ) {
                    Err(e) => Err(e),
                    Ok(notional) => Ok(Quote { premium, notional }),
                },
            },
        },
    }
}

/// Nothing with a size and a term is quoted for nothing: an order of one unit
/// or more whose expiry lies ahead is quoted a premium of one base unit or
/// more, in whichever asset it is paid.
pub proof fn lemma_quote_charges_premium(
    spot: OraclePrice,
    order: SellOrder,
    now: i64,
    sol_decimals: u8,
    usdc_decimals: u8,
)
    requires
        order.quantity > 0,
        order.expired_time > now,
    ensures
        sale_quote(spot, order, now, sol_decimals, usdc_decimals) matches Ok(quote)
            ==> quote.premium > 0,
{
    if sale_quote(spot, order, now, sol_decimals, usdc_decimals) is Ok {
        let (price, strike, exponent) = aligned(
            spot.price as nat,
            spot.exponent as int,
            order.strike_price as nat,
            order.strike_exponent as int,
        )->Ok_0;
        let seconds = time_to_expiry(order.expired_time, now);
        let unit = premium_value(price as nat, strike as nat, seconds, order.is_call)->Ok_0;
        lemma_premium_positive(price as nat, strike as nat, seconds, order.is_call);
        let decimals = (if order.pay_sol {
            sol_decimals
        } else {
            usdc_decimals
        }) as nat;
        let quantity = order.quantity as nat;
        let total = unit as nat * quantity;
        assert(total > 0) by (nonlinear_arith)
            requires
                total == unit as nat * quantity,
                unit > 0,
                quantity > 0,
        ;
        if order.pay_sol {
            lemma_pow10_positive(decimals);
            assert(total * pow10(decimals) > 0) by (nonlinear_arith)
                requires
                    total > 0,
                    pow10(decimals) > 0,
            ;
            lemma_ceil_div_bounds(total * pow10(decimals), price as nat);
        } else {
            let power = exponent + decimals;
            if power >= 0 {
                lemma_pow10_positive(power as nat);
                assert(unit as nat * quantity * pow10(power as nat) > 0) by (nonlinear_arith)
                    requires
                        unit as nat * quantity > 0,
                        pow10(power as nat) > 0,
                ;
            } else {
                lemma_pow10_positive((-power) as nat);
                lemma_ceil_div_bounds(total, pow10((-power) as nat));
            }
        }
    }
}

/// An order that can be priced for one expiry can be priced for any sooner
/// one, for a premium that is no higher and for the same collateral.
pub proof fn lemma_sooner_orders_are_priceable(
    spot: OraclePrice,
    order: SellOrder,
    sooner: i64,
    now: i64,
    sol_decimals: u8,
    usdc_decimals: u8,
)
    requires
        sooner <= order.expired_time,
    ensures
        sale_quote(spot, order, now, sol_decimals, usdc_decimals) matches Ok(later) ==> (sale_quote(
            spot,
            SellOrder { expired_time: sooner, ..order },
            now,
            sol_decimals,
            usdc_decimals,
        ) matches Ok(quote) && quote.premium <= later.premium && quote.notional
            == later.notional),
{
    if sale_quote(spot, order, now, sol_decimals, usdc_decimals) is Ok {
        let (price, strike, exponent) = aligned(
            spot.price as nat,
            spot.exponent as int,
            order.strike_price as nat,
            order.strike_exponent as int,
        )->Ok_0;
        let short = time_to_expiry(sooner, now);
        let long = time_to_expiry(order.expired_time, now);
        lemma_premium_grows_with_time(price as nat, strike as nat, short, long, order.is_call);
        let low = premium_value(price as nat, strike as nat, short, order.is_call)->Ok_0 as nat;
        let high = premium_value(price as nat, strike as nat, long, order.is_call)->Ok_0 as nat;
        let quantity = order.quantity as nat;
        let decimals = (if order.pay_sol {
            sol_decimals
        } else {
            usdc_decimals
        }) as nat;
        assert(low * quantity <= high * quantity) by (nonlinear_arith)
            requires
                low <= high,
        ;
        if order.pay_sol {
            lemma_pow10_positive(decimals);
            assert(low * quantity * pow10(decimals) <= high * quantity * pow10(decimals))
                by (nonlinear_arith)
                requires
                    low * quantity <= high * quantity,
            ;
            lemma_ceil_div_monotonic(
                low * quantity * pow10(decimals),
                high * quantity * pow10(decimals),
                price as nat,
            );
        } else {
            let power = exponent + decimals;
            if power >= 0 {
                assert(low * quantity * pow10(power as nat) <= high * quantity * pow10(
                    power as nat,
                )) by (nonlinear_arith)
                    requires
                        low * quantity <= high * quantity,
                ;
            } else {
                lemma_pow10_positive((-power) as nat);
                lemma_ceil_div_monotonic(low * quantity, high * quantity, pow10((-power) as nat));
            }
        }
    }
}

/// Prices an order: the premium to charge and the collateral to lock.
pub fn quote_sale(
    spot: &OraclePrice,
    order: &SellOrder,
    now: i64,
    sol_decimals: u8,
    usdc_decimals: u8,
) -> (r: Result<Quote, ErrorCode>)
    ensures
        r == sale_quote(*spot, *order, now, sol_decimals, usdc_decimals),
        order.quantity > 0 && order.expired_time > now ==> (r matches Ok(quote) ==> quote.premium
            > 0),
{
    proof {
        if order.quantity > 0 && order.expired_time > now {
            lemma_quote_charges_premium(*spot, *order, now, sol_decimals, usdc_decimals);
        }
    }
    let (price, strike, exponent) = align_decimals(
        spot.price,
        spot.exponent,
        order.strike_price,
        order.strike_exponent,
    )?;
    let seconds: u64 = if order.expired_time > now {
        (order.expired_time as i128 - now as i128) as u64
    } else {
        0
    };
    let unit = price_premium(price, strike, seconds, order.is_call)?;
    let pay_decimals = if order.pay_sol {
        sol_decimals
    } else {
        usdc_decimals
    };
    let premium = if order.pay_sol {
        let total = checked_mul(unit, order.quantity)?;
        checked_decimal_ceil_div(total, exponent, price, exponent, -(pay_decimals as i32))?
    } else {
        checked_decimal_ceil_mul(unit, exponent, order.quantity, 0, -(pay_decimals as i32))?
    };
    let lock_decimals = if order.is_call {
        sol_decimals
    } else {
        usdc_decimals
    };
    let notional = if order.is_call {
        scale_to_exponent(order.quantity, 0, -(lock_decimals as i32))?
    } else {
        checked_decimal_mul(order.quantity, 0, strike, exponent, -(lock_decimals as i32))?
    };
    Ok(Quote { premium, notional })
}

impl SellOption {
    /// The buyer's record as the sale finds it: the one handed in, or a new
    /// one of the buyer with no position yet.
    pub open spec fn buyer(&self) -> User {
        match self.user {
            Some(user) => user,
            None => User { owner: self.signer, option_index: 0 },
        }
    }

    /// The buyer's token account of the asset paid in.
    pub open spec fn signer_ata(&self, pay_sol: bool) -> TokenAccount {
        if pay_sol {
            self.signer_ata_wsol
        } else {
            self.signer_ata_usdc
        }
    }

    /// The pool's token account of the asset paid in.
    pub open spec fn lp_ata(&self, pay_sol: bool) -> TokenAccount {
        if pay_sol {
            self.lp_ata_wsol
        } else {
            self.lp_ata_usdc
        }
    }

    /// These accounts after `amount` has moved from the buyer's token account
    /// to the pool's.
    pub open spec fn with_payment(self, pay_sol: bool, amount: u64) -> SellOption {
        if pay_sol {
            SellOption {
                signer_ata_wsol: TokenAccount {
                    amount: (self.signer_ata_wsol.amount - amount) as u64,
                    ..self.signer_ata_wsol
                },
                lp_ata_wsol: TokenAccount {
                    amount: (self.lp_ata_wsol.amount + amount) as u64,
                    ..self.lp_ata_wsol
                },
                ..self
            }
        } else {
            SellOption {
                signer_ata_usdc: TokenAccount {
                    amount: (self.signer_ata_usdc.amount - amount) as u64,
                    ..self.signer_ata_usdc
                },
                lp_ata_usdc: TokenAccount {
                    amount: (self.lp_ata_usdc.amount + amount) as u64,
                    ..self.lp_ata_usdc
                },
                ..self
            }
        }
    }

    /// What is wrong with the accounts handed in, if anything.
    pub open spec fn accounts_error(&self) -> Option<ErrorCode> {
        if !self.lp.is_initialized {
            Some(invalid_pool_state())
        } else if self.signer_ata_wsol.mint != self.lp.sol.mint || self.lp_ata_wsol.mint
            != self.lp.sol.mint || self.signer_ata_usdc.mint != self.lp.usdc.mint
            || self.lp_ata_usdc.mint != self.lp.usdc.mint {
            Some(invalid_mint())
        } else if self.signer_ata_wsol.owner != self.signer || self.signer_ata_usdc.owner
            != self.signer {
            Some(invalid_owner())
        } else if self.pyth_price_account.account != self.lp.sol.oracle {
            Some(invalid_oracle_account())
        } else {
            None
        }
    }
}

/// The position that a sale creates.
pub open spec fn new_position(ctx: SellOption, order: SellOrder, quote: Quote) -> OptionDetail {
    OptionDetail {
        owner: ctx.signer,
        index: order.option_index,
        custody: ctx.lp.sol.mint,
        locked_custody: ctx.lp.custody(order.is_call).mint,
        quantity: order.quantity,
        amount: quote.notional,
        strike_price: order.strike_price,
        strike_exponent: order.strike_exponent,
        expired_date: order.expired_time,
        option_type: order.is_call,
        premium: quote.premium,
        premium_unit: order.pay_sol,
        valid: true,
        exercised: 0,
        claimed: 0,
        profit: 0,
    }
}

/// The accounts after the premium of `quote` is paid and its collateral
/// locked: the buyer must hold the premium; the premium is credited to the
/// custody of the asset paid in, and only then is the collateral locked on
/// the custody that backs the position, which must have that much free.
pub open spec fn sale_booked(ctx: SellOption, order: SellOrder, quote: Quote) -> Result<
    (SellOption, ()),
    ErrorCode,
> {
    if ctx.signer_ata(order.pay_sol).amount < quote.premium {
        Err(insufficient_signer_balance())
    } else if ctx.lp_ata(order.pay_sol).amount + quote.premium > u64::MAX {
        Err(overflow())
    } else {
        match ctx.lp.custody(order.pay_sol).credited(quote.premium) {
            Err(e) => Err(e),
            Ok((paid, _)) => {
                let lp = ctx.lp.with_custody(order.pay_sol, paid);
                match lp.custody(order.is_call).locked(quote.notional) {
                    Err(e) => Err(e),
                    Ok((backing, _)) => Ok(
                        (
                            SellOption {
                                lp: lp.with_custody(order.is_call, backing),
                                user: Some(
                                    User { option_index: order.option_index, ..ctx.buyer() },
                                ),
                                option_detail: Some(new_position(ctx, order, quote)),
                                ..ctx.with_payment(order.pay_sol, quote.premium)
                            },
                            (),
                        ),
                    ),
                }
            },
        }
    }
}

/// What a sale prescribes. In order: the user record, if there is one, must
/// be the buyer's;
/// the order must carry the index after the user's latest, and the slot for
/// the position must be empty; the expiry must lie ahead and the order must
/// be for one unit or more; the pool must be initialized, the token
/// accounts must be of the pool's two assets and the buyer's own, and the
/// quote must come from the oracle of the underlying; the quote must be
/// fresh and positive; the order must be priceable; and the sale must be
/// payable and coverable.
pub open spec fn sell_outcome(ctx: SellOption, order: SellOrder) -> Result<
    (SellOption, ()),
    ErrorCode,
> {
    if ctx.buyer().owner != ctx.signer {
        Err(invalid_owner())
    } else if order.option_index != ctx.buyer().option_index + 1 || ctx.option_detail is Some {
        Err(invalid_option_index())
    } else if order.expired_time <= ctx.current_time {
        Err(invalid_time())
    } else if order.quantity == 0 {
        Err(invalid_price())
    } else {
        match ctx.accounts_error() {
            Some(e) => Err(e),
            None => match normalized(ctx.pyth_price_account, ctx.current_time) {
                Err(e) => Err(e),
                Ok(spot) => match sale_quote(
                    spot,
                    order,
                    ctx.current_time,
                    ctx.lp.sol.decimals,
                    ctx.lp.usdc.decimals,
                ) {
                    Err(e) => Err(e),
                    Ok(quote) => sale_booked(ctx, order, quote),
                },
            },
        }
    }
}

/// Sells a position: charges its premium in the asset the buyer chose,
/// credits the pool, locks the collateral and records the position as open.
pub fn sell_option(
    ctx: &mut SellOption,
    quantity: u64,
    strike_price: u64,
    strike_exponent: i32,
    expired_time: i64,
    option_index: u64,
    is_call: bool,
    pay_sol: bool,
) -> (r: Result<(), ErrorCode>)
    ensures
        transition(
            sell_outcome(
                *old(ctx),
                (SellOrder {
                    quantity,
                    strike_price,
                    strike_exponent,
                    expired_time,
                    option_index,
                    is_call,
                    pay_sol,
                }),
            ),
            *old(ctx),
            *final(ctx),
            r,
        ),
        old(ctx).lp.wf() ==> final(ctx).lp.wf(),
        r is Ok ==> (final(ctx).option_detail matches Some(position) && position.is_open()
            && position.wf()),
        r is Ok ==> (final(ctx).option_detail matches Some(position) && position.premium > 0),
        r is Ok ==> (final(ctx).user matches Some(user) && user.option_index == old(
            ctx,
        ).buyer().option_index + 1),
{
    let order = SellOrder {
        quantity,
        strike_price,
        strike_exponent,
        expired_time,
        option_index,
        is_call,
        pay_sol,
    };
    let buyer = match ctx.user {
        Some(user) => user,
        None => User { owner: ctx.signer, option_index: 0 },
    };
    if !(buyer.owner == ctx.signer) {
        return Err(ErrorCode::OptionBook(OptionError::InvalidOwner));
    }
    if buyer.option_index == u64::MAX || option_index != buyer.option_index + 1
        || ctx.option_detail.is_some() {
        return Err(ErrorCode::OptionBook(OptionError::InvalidOptionIndexError));
    }
    if expired_time <= ctx.current_time {
        return Err(ErrorCode::OptionBook(OptionError::InvalidTimeError));
    }
    if quantity == 0 {
        return Err(ErrorCode::OptionBook(OptionError::InvalidPriceRequirementError));
    }
    if !ctx.lp.is_initialized {
        return Err(ErrorCode::Pool(PoolError::InvalidPoolState));
    }
    if !(ctx.signer_ata_wsol.mint == ctx.lp.sol.mint) || !(ctx.lp_ata_wsol.mint == ctx.lp.sol.mint)
        || !(ctx.signer_ata_usdc.mint == ctx.lp.usdc.mint) || !(ctx.lp_ata_usdc.mint
        == ctx.lp.usdc.mint) {
        return Err(ErrorCode::OptionBook(OptionError::InvalidMintError));
    }
    if !(ctx.signer_ata_wsol.owner == ctx.signer) || !(ctx.signer_ata_usdc.owner == ctx.signer) {
        return Err(ErrorCode::OptionBook(OptionError::InvalidOwner));
    }
    if !(ctx.pyth_price_account.account == ctx.lp.sol.oracle) {
        return Err(ErrorCode::Contract(ContractError::InvalidOracleAccount));
    }
    let spot = OraclePrice::new_from_oracle(&ctx.pyth_price_account, ctx.current_time)?;
    let quote = quote_sale(
        &spot,
        &order,
        ctx.current_time,
        ctx.lp.sol.decimals,
        ctx.lp.usdc.decimals,
    )?;
    let payer = if pay_sol {
        ctx.signer_ata_wsol
    } else {
        ctx.signer_ata_usdc
    };
    let pool_account = if pay_sol {
        ctx.lp_ata_wsol
    } else {
        ctx.lp_ata_usdc
    };
    if payer.amount < quote.premium {
        return Err(ErrorCode::OptionBook(OptionError::InvalidSignerBalanceError));
    }
    let pooled = checked_add(pool_account.amount, quote.premium)?;
    let mut lp = ctx.lp;
    let mut paid = lp.get_custody(pay_sol);
    paid.credit(quote.premium)?;
    lp.set_custody(pay_sol, paid);
    let mut backing = lp.get_custody(is_call);
    backing.lock(quote.notional)?;
    lp.set_custody(is_call, backing);
    let position = OptionDetail {
        owner: ctx.signer,
        index: option_index,
        custody: ctx.lp.sol.mint,
        locked_custody: if is_call {
            ctx.lp.sol.mint
        } else {
            ctx.lp.usdc.mint
        },
        quantity,
        amount: quote.notional,
        strike_price,
        strike_exponent,
        expired_date: expired_time,
        option_type: is_call,
        premium: quote.premium,
        premium_unit: pay_sol,
        valid: true,
        exercised: 0,
        claimed: 0,
        profit: 0,
    };
    ctx.lp = lp;
    ctx.user = Some(User { owner: buyer.owner, option_index });
    ctx.option_detail = Some(position);
    if pay_sol {
        ctx.signer_ata_wsol.amount = payer.amount - quote.premium;
        ctx.lp_ata_wsol.amount = pooled;
    } else {
        ctx.signer_ata_usdc.amount = payer.amount - quote.premium;
        ctx.lp_ata_usdc.amount = pooled;
    }
    Ok(())
}

} // verus!
