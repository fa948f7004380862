//! Expiry: the administrator closes an expired position at a settlement
//! price of their own supplying, where no oracle quote can be had.

use vstd::prelude::*;
use crate::errors::{
    admin_authority,
    ErrorCode,
    invalid_owner,
    invalid_price,
    invalid_time,
    OptionError,
    PoolError,
};
use crate::instructions::settlement::{check_position, position_error, Settlement};
use crate::state::account::{Pubkey, TokenAccount};
use crate::state::custody::Custody;
use crate::state::lp::Users;
use crate::state::option_detail::{OptionDetail, User};
use crate::state::oracle::OraclePrice;
use crate::state::transition;

verus! {

/// The accounts of an expiry.
#[derive(Clone, Copy, Debug, PartialEq, Eq)]
pub struct ExpireOption {
    /// The caller, who must be the administrator.
    pub signer: Pubkey,
    pub users: Users,
    /// The current time, in seconds.
    pub current_time: i64,
    pub custody: Custody,
    pub user: User,
    pub option_detail: OptionDetail,
    pub locked_custody: Custody,
    pub locked_custody_token_account: TokenAccount,
    /// The owner's token account, which receives the payout.
    pub funding_account: TokenAccount,
}

impl ExpireOption {
    /// The records that the settlement works on.
    pub open spec fn settlement(&self) -> Settlement {
        Settlement {
            option_detail: self.option_detail,
            custody: self.custody,
            locked_custody: self.locked_custody,
            locked_custody_token_account: self.locked_custody_token_account,
            funding_account: self.funding_account,
        }
    }

    /// These accounts with the settled records put back.
    pub open spec fn with_settlement(self, s: Settlement) -> ExpireOption {
        ExpireOption {
            option_detail: s.option_detail,
            custody: s.custody,
            locked_custody: s.locked_custody,
            locked_custody_token_account: s.locked_custody_token_account,
            funding_account: s.funding_account,
            ..self
        }
    }
}

/// The settlement price `price * 10^exponent` as the administrator states it
/// at time `now`.
pub open spec fn stated_price(price: u64, exponent: i32, now: i64) -> OraclePrice {
    OraclePrice { price, exponent, confidence: 0, published_at: now }
}

/// What an expiry prescribes. In order: the caller must be the administrator;
/// the position must be one of the user's and still open; the payout account
/// must be that user's; the time must be positive and not before the expiry;
/// and the stated price must be positive. Then the position is settled at
/// that price, for nothing where it is out of the money.
pub open spec fn expire_outcome(ctx: ExpireOption, option_index: u64, price: u64, exponent: i32) -> Result<
    (ExpireOption, ()),
    ErrorCode,
> {
    if ctx.signer != ctx.users.admin {
        Err(admin_authority())
    } else {
        match position_error(ctx.user, ctx.option_detail, option_index, ctx.user.owner) {
            Some(e) => Err(e),
            None => {
                if ctx.funding_account.owner != ctx.user.owner {
                    Err(invalid_owner())
                } else if ctx.current_time <= 0 || ctx.current_time
                    < ctx.option_detail.expired_date {
                    Err(invalid_time())
                } else if price == 0 {
                    Err(invalid_price())
                } else {
                    match ctx.settlement().settled(
                        stated_price(price, exponent, ctx.current_time),
                        ctx.current_time as u64,
                        false,
                    ) {
                        Err(e) => Err(e),
                        Ok((s, _)) => Ok((ctx.with_settlement(s), ())),
                    }
                }
            },
        }
    }
}

/// Closes an expired position at the price `price * 10^exponent`, pays its
/// owner what it is worth at that price and releases its collateral.
pub fn expire_option(ctx: &mut ExpireOption, option_index: u64, price: u64, exponent: i32) -> (r: Result<
    (),
    ErrorCode,
>)
    ensures
        transition(
            expire_outcome(*old(ctx), option_index, price, exponent),
            *old(ctx),
            *final(ctx),
            r,
        ),
        old(ctx).custody.wf() && old(ctx).locked_custody.wf() ==> final(ctx).custody.wf()
            && final(ctx).locked_custody.wf(),
        old(ctx).option_detail.wf() ==> final(ctx).option_detail.wf(),
        !old(ctx).option_detail.valid ==> !final(ctx).option_detail.valid,
        r is Ok ==> !final(ctx).option_detail.valid,
{
    if !(ctx.signer == ctx.users.admin) {
        return Err(ErrorCode::Pool(PoolError::AdminAuthorityError));
    }
    check_position(&ctx.user, &ctx.option_detail, option_index, &ctx.user.owner)?;
    if !(ctx.funding_account.owner == ctx.user.owner) {
        return Err(ErrorCode::OptionBook(OptionError::InvalidOwner));
    }
    if ctx.current_time <= 0 || ctx.current_time < ctx.option_detail.expired_date {
        return Err(ErrorCode::OptionBook(OptionError::InvalidTimeError));
    }
    if price == 0 {
        return Err(ErrorCode::OptionBook(OptionError::InvalidPriceRequirementError));
    }
    let spot = OraclePrice { price, exponent, confidence: 0, published_at: ctx.current_time };
    let mut records = Settlement {
        option_detail: ctx.option_detail,
        custody: ctx.custody,
        locked_custody: ctx.locked_custody,
        locked_custody_token_account: ctx.locked_custody_token_account,
        funding_account: ctx.funding_account,
    };
    records.settle(&spot, ctx.current_time as u64, false)?;
    ctx.option_detail = records.option_detail;
    ctx.custody = records.custody;
    ctx.locked_custody = records.locked_custody;
    ctx.locked_custody_token_account = records.locked_custody_token_account;
    ctx.funding_account = records.funding_account;
    Ok(())
}

} // verus!
