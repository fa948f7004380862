//! Deployment: creates the liquidity pool with nothing in it and names its
//! administrator.

use vstd::prelude::*;
use crate::errors::{ErrorCode, invalid_custody_token, invalid_pool_state, PoolError};
use crate::state::account::{Mint, Pubkey, TokenAccount};
use crate::state::custody::Custody;
use crate::state::lp::{Lp, Users};
use crate::state::transition;

verus! {

/// The accounts of a deployment.
#[derive(Clone, Copy, Debug, PartialEq, Eq)]
pub struct Initialize {
    /// The caller, who becomes the administrator.
    pub signer: Pubkey,
    /// The mint of the underlying.
    pub wsol_mint: Mint,
    /// The mint of the quote asset.
    pub usdc_mint: Mint,
    /// The oracle account that quotes the underlying.
    pub wsol_oracle: Pubkey,
    /// The oracle account that quotes the quote asset.
    pub usdc_oracle: Pubkey,
    pub lp: Lp,
    pub users: Users,
    /// The pool's token account of the underlying.
    pub wsol_ata: TokenAccount,
    /// The pool's token account of the quote asset.
    pub usdc_ata: TokenAccount,
}

/// What a deployment prescribes: the pool must not be initialized yet and
/// the two mints must differ. Then the pool gets an empty custody of each
/// asset, its two token accounts are set to those assets with nothing in
/// them, and the caller is recorded as the administrator.
pub open spec fn initialize_outcome(ctx: Initialize) -> Result<(Initialize, ()), ErrorCode> {
    if ctx.lp.is_initialized {
        Err(invalid_pool_state())
    } else if ctx.wsol_mint.address == ctx.usdc_mint.address {
        Err(invalid_custody_token())
    } else {
        Ok(
            (
                Initialize {
                    lp: Lp {
                        is_initialized: true,
                        sol: Custody {
                            mint: ctx.wsol_mint.address,
                            oracle: ctx.wsol_oracle,
                            decimals: ctx.wsol_mint.decimals,
                            total_balance: 0,
                            locked_balance: 0,
                        },
                        usdc: Custody {
                            mint: ctx.usdc_mint.address,
                            oracle: ctx.usdc_oracle,
                            decimals: ctx.usdc_mint.decimals,
                            total_balance: 0,
                            locked_balance: 0,
                        },
                    },
                    users: Users { admin: ctx.signer },
                    wsol_ata: TokenAccount {
                        mint: ctx.wsol_mint.address,
                        amount: 0,
                        ..ctx.wsol_ata
                    },
                    usdc_ata: TokenAccount {
                        mint: ctx.usdc_mint.address,
                        amount: 0,
                        ..ctx.usdc_ata
                    },
                    ..ctx
                },
                (),
            ),
        )
    }
}

/// Creates the liquidity pool, once.
pub fn initialize(ctx: &mut Initialize) -> (r: Result<(), ErrorCode>)
    ensures
        transition(initialize_outcome(*old(ctx)), *old(ctx), *final(ctx), r),
        r is Ok ==> final(ctx).lp.wf(),
{
    if ctx.lp.is_initialized {
        return Err(ErrorCode::Pool(PoolError::InvalidPoolState));
    }
    if ctx.wsol_mint.address == ctx.usdc_mint.address {
        return Err(ErrorCode::Pool(PoolError::InvalidCustodyTokenError));
    }
    ctx.lp.is_initialized = true;
    ctx.lp.sol = Custody::new(ctx.wsol_mint.address, ctx.wsol_oracle, ctx.wsol_mint.decimals);
    ctx.lp.usdc = Custody::new(ctx.usdc_mint.address, ctx.usdc_oracle, ctx.usdc_mint.decimals);
    ctx.users.admin = ctx.signer;
    ctx.wsol_ata.mint = ctx.wsol_mint.address;
    ctx.wsol_ata.amount = 0;
    ctx.usdc_ata.mint = ctx.usdc_mint.address;
    ctx.usdc_ata.amount = 0;
    Ok(())
}

} // verus!
