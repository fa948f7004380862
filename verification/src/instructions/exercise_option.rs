//! Manual exercise: the owner settles a position before it expires.

use vstd::prelude::*;
use crate::errors::{
    ContractError,
    ErrorCode,
    invalid_oracle_account,
    invalid_owner,
    invalid_time,
    OptionError,
};
use crate::instructions::settlement::{check_position, position_error, Settlement};
use crate::state::account::{Pubkey, TokenAccount};
use crate::state::custody::Custody;
use crate::state::option_detail::{OptionDetail, User};
use crate::state::oracle::{normalized, OraclePrice, OracleQuote};
use crate::state::transition;

verus! {

/// Which of the caller's positions to exercise.
#[derive(Clone, Copy, Debug, PartialEq, Eq)]
pub struct ExerciseOptionParams {
    pub option_index: u64,
}

/// The accounts of a manual exercise.
#[derive(Clone, Copy, Debug, PartialEq, Eq)]
pub struct ExerciseOption {
    /// The caller, who must own the position.
    pub owner: Pubkey,
    pub funding_account: TokenAccount,
    /// The current time, in seconds.
    pub current_time: i64,
    pub custody: Custody,
    pub user: User,
    pub option_detail: OptionDetail,
    pub locked_custody: Custody,
    pub locked_custody_token_account: TokenAccount,
    /// The quote of the underlying, read from the custody's oracle account.
    pub custody_oracle: OracleQuote,
}

impl ExerciseOption {
    /// The records that the settlement works on.
    pub open spec fn settlement(&self) -> Settlement {
        Settlement {
            option_detail: self.option_detail,
            custody: self.custody,
            locked_custody: self.locked_custody,
            locked_custody_token_account: self.locked_custody_token_account,
            funding_account: self.funding_account,
        }
    }

    /// These accounts with the settled records put back.
    pub open spec fn with_settlement(self, s: Settlement) -> ExerciseOption {
        ExerciseOption {
            option_detail: s.option_detail,
            custody: s.custody,
            locked_custody: s.locked_custody,
            locked_custody_token_account: s.locked_custody_token_account,
            funding_account: s.funding_account,
            ..self
        }
    }
}

/// What a manual exercise prescribes. In order: the position must be one of
/// the owner's and still open; the payout account must be the owner's; the
/// time must be positive and before the expiry; the quote must come from the
/// custody's oracle and be fresh and positive; and the position must be in
/// the money, where a spot equal to the strike counts as in the money and
/// pays nothing. Then the position is settled.
pub open spec fn exercise_outcome(ctx: ExerciseOption, params: ExerciseOptionParams) -> Result<
    (ExerciseOption, ()),
    ErrorCode,
> {
    match position_error(ctx.user, ctx.option_detail, params.option_index, ctx.owner) {
        Some(e) => Err(e),
        None => {
            if ctx.funding_account.owner != ctx.owner {
                Err(invalid_owner())
            } else if ctx.current_time <= 0 || ctx.current_time >= ctx.option_detail.expired_date {
                Err(invalid_time())
            } else if ctx.custody_oracle.account != ctx.custody.oracle {
                Err(invalid_oracle_account())
            } else {
                match normalized(ctx.custody_oracle, ctx.current_time) {
                    Err(e) => Err(e),
                    Ok(spot) => match ctx.settlement().settled(spot, ctx.current_time as u64, true) {
                        Err(e) => Err(e),
                        Ok((s, _)) => Ok((ctx.with_settlement(s), ())),
                    },
                }
            }
        },
    }
}

/// Settles an open position before its expiry, on its owner's call, and pays
/// the owner what it is worth.
pub fn exercise_option(ctx: &mut ExerciseOption, params: &ExerciseOptionParams) -> (r: Result<
    (),
    ErrorCode,
>)
    ensures
        transition(exercise_outcome(*old(ctx), *params), *old(ctx), *final(ctx), r),
        old(ctx).custody.wf() && old(ctx).locked_custody.wf() ==> final(ctx).custody.wf()
            && final(ctx).locked_custody.wf(),
        old(ctx).option_detail.wf() ==> final(ctx).option_detail.wf(),
        !old(ctx).option_detail.valid ==> !final(ctx).option_detail.valid,
        r is Ok ==> !final(ctx).option_detail.valid,
{
    check_position(&ctx.user, &ctx.option_detail, params.option_index, &ctx.owner)?;
    if !(ctx.funding_account.owner == ctx.owner) {
        return Err(ErrorCode::OptionBook(OptionError::InvalidOwner));
    }
    if ctx.current_time <= 0 || ctx.current_time >= ctx.option_detail.expired_date {
        return Err(ErrorCode::OptionBook(OptionError::InvalidTimeError));
    }
    if !(ctx.custody_oracle.account == ctx.custody.oracle) {
        return Err(ErrorCode::Contract(ContractError::InvalidOracleAccount));
    }
    let spot = OraclePrice::new_from_oracle(&ctx.custody_oracle, ctx.current_time)?;
    let mut records = Settlement {
        option_detail: ctx.option_detail,
        custody: ctx.custody,
        locked_custody: ctx.locked_custody,
        locked_custody_token_account: ctx.locked_custody_token_account,
        funding_account: ctx.funding_account,
    };
    records.settle(&spot, ctx.current_time as u64, true)?;
    ctx.option_detail = records.option_detail;
    ctx.custody = records.custody;
    ctx.locked_custody = records.locked_custody;
    ctx.locked_custody_token_account = records.locked_custody_token_account;
    ctx.funding_account = records.funding_account;
    Ok(())
}

} // verus!
