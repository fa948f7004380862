//! Deposit of the quote asset: anyone may add to the pool's collateral.

use vstd::prelude::*;
use crate::errors::{ErrorCode, invalid_owner, invalid_pool_state, OptionError, PoolError};
use crate::instructions::movement::Movement;
use crate::state::account::{Pubkey, TokenAccount};
use crate::state::lp::Lp;
use crate::state::transition;

verus! {

/// The accounts of a deposit of the quote asset.
#[derive(Clone, Copy, Debug, PartialEq, Eq)]
pub struct DepositUsdc {
    /// The caller, who pays the deposit.
    pub signer: Pubkey,
    pub signer_ata: TokenAccount,
    pub lp: Lp,
    pub lp_ata: TokenAccount,
}

/// What a deposit of the quote asset prescribes: the pool must be initialized
/// and the token account that pays must be the caller's; then the pool's
/// usdc side is deposited into.
pub open spec fn deposit_usdc_outcome(ctx: DepositUsdc, amount: u64) -> Result<
    (DepositUsdc, ()),
    ErrorCode,
> {
    if !ctx.lp.is_initialized {
        Err(invalid_pool_state())
    } else if ctx.signer_ata.owner != ctx.signer {
        Err(invalid_owner())
    } else {
        match (Movement {
            custody: ctx.lp.usdc,
            lp_ata: ctx.lp_ata,
            signer_ata: ctx.signer_ata,
        }).deposited(amount) {
            Err(e) => Err(e),
            Ok((moved, _)) => Ok(
                (
                    DepositUsdc {
                        lp: Lp { usdc: moved.custody, ..ctx.lp },
                        lp_ata: moved.lp_ata,
                        signer_ata: moved.signer_ata,
                        ..ctx
                    },
                    (),
                ),
            ),
        }
    }
}

/// Deposits `amount` of the quote asset from the caller into the pool.
pub fn deposit_usdc(ctx: &mut DepositUsdc, amount: u64) -> (r: Result<(), ErrorCode>)
    ensures
        transition(deposit_usdc_outcome(*old(ctx), amount), *old(ctx), *final(ctx), r),
        old(ctx).lp.wf() ==> final(ctx).lp.wf(),
{
    if !ctx.lp.is_initialized {
        return Err(ErrorCode::Pool(PoolError::InvalidPoolState));
    }
    if !(ctx.signer_ata.owner == ctx.signer) {
        return Err(ErrorCode::OptionBook(OptionError::InvalidOwner));
    }
    let mut movement = Movement {
        custody: ctx.lp.usdc,
        lp_ata: ctx.lp_ata,
        signer_ata: ctx.signer_ata,
    };
    movement.deposit(amount)?;
    ctx.lp.usdc = movement.custody;
    ctx.lp_ata = movement.lp_ata;
    ctx.signer_ata = movement.signer_ata;
    Ok(())
}

} // verus!
