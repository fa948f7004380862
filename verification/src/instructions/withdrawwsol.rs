//! Withdrawal of the underlying: the administrator takes free balance out of
//! the pool.

use vstd::prelude::*;
use crate::errors::{ErrorCode, invalid_owner, invalid_pool_state, OptionError, PoolError};
use crate::instructions::movement::Movement;
use crate::state::account::{Pubkey, TokenAccount};
use crate::state::lp::{Lp, Users};
use crate::state::transition;

verus! {

/// The accounts of a withdrawal of the underlying.
#[derive(Clone, Copy, Debug, PartialEq, Eq)]
pub struct WithdrawWsol {
    /// The caller, who must be the administrator.
    pub signer: Pubkey,
    pub signer_ata: TokenAccount,
    pub lp: Lp,
    pub lp_ata: TokenAccount,
    pub users: Users,
}

/// What a withdrawal of the underlying prescribes: the pool must be
/// initialized and the token account that receives must be the caller's, and
/// then its underlying side is withdrawn from.
pub open spec fn withdraw_wsol_outcome(ctx: WithdrawWsol, amount: u64) -> Result<
    (WithdrawWsol, ()),
    ErrorCode,
> {
    if !ctx.lp.is_initialized {
        Err(invalid_pool_state())
    } else if ctx.signer_ata.owner != ctx.signer {
        Err(invalid_owner())
    } else {
        match (Movement {
            custody: ctx.lp.sol,
            lp_ata: ctx.lp_ata,
            signer_ata: ctx.signer_ata,
        }).withdrawn(amount, ctx.signer == ctx.users.admin) {
            Err(e) => Err(e),
            Ok((moved, _)) => Ok(
                (
                    WithdrawWsol {
                        lp: Lp { sol: moved.custody, ..ctx.lp },
                        lp_ata: moved.lp_ata,
                        signer_ata: moved.signer_ata,
                        ..ctx
                    },
                    (),
                ),
            ),
        }
    }
}

/// Withdraws `amount` of the underlying from the pool's free balance to the
/// administrator.
pub fn withdraw_wsol(ctx: &mut WithdrawWsol, amount: u64) -> (r: Result<(), ErrorCode>)
    ensures
        transition(withdraw_wsol_outcome(*old(ctx), amount), *old(ctx), *final(ctx), r),
        old(ctx).lp.wf() ==> final(ctx).lp.wf(),
{
    if !ctx.lp.is_initialized {
        return Err(ErrorCode::Pool(PoolError::InvalidPoolState));
    }
    if !(ctx.signer_ata.owner == ctx.signer) {
        return Err(ErrorCode::OptionBook(OptionError::InvalidOwner));
    }
    let mut movement = Movement {
        custody: ctx.lp.sol,
        lp_ata: ctx.lp_ata,
        signer_ata: ctx.signer_ata,
    };
    movement.withdraw(amount, ctx.signer == ctx.users.admin)?;
    ctx.lp.sol = movement.custody;
    ctx.lp_ata = movement.lp_ata;
    ctx.signer_ata = movement.signer_ata;
    Ok(())
}

} // verus!
