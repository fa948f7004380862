use option_contract::errors::{ErrorCode, MathError, OptionError, PoolError};
use option_contract::instructions::depositusdc::{deposit_usdc, DepositUsdc};
use option_contract::instructions::depositwsol::{deposit_wsol, DepositWsol};
use option_contract::instructions::initialize::{initialize, Initialize};
use option_contract::instructions::movement::Movement;
use option_contract::instructions::withdrawusdc::{withdraw_usdc, WithdrawUsdc};
use option_contract::instructions::withdrawwsol::{withdraw_wsol, WithdrawWsol};
use option_contract::state::account::{Mint, Pubkey, TokenAccount};
use option_contract::state::custody::Custody;
use option_contract::state::lp::{Lp, Users};

fn key(n: u8) -> Pubkey {
    Pubkey::new([n; 32])
}

const ADMIN: u8 = 2;
const SOL: u8 = 10;
const USDC: u8 = 11;
const POOL: u8 = 30;

fn account(mint: u8, owner: u8, amount: u64) -> TokenAccount {
    TokenAccount { mint: key(mint), owner: key(owner), amount }
}

fn blank() -> Initialize {
    Initialize {
        signer: key(ADMIN),
        wsol_mint: Mint { address: key(SOL), decimals: 9 },
        usdc_mint: Mint { address: key(USDC), decimals: 6 },
        wsol_oracle: key(20),
        usdc_oracle: key(21),
        lp: Lp {
            is_initialized: false,
            sol: Custody::new(key(0), key(0), 0),
            usdc: Custody::new(key(0), key(0), 0),
        },
        users: Users { admin: key(0) },
        wsol_ata: account(0, POOL, 0),
        usdc_ata: account(0, POOL, 0),
    }
}

fn fresh_pool() -> Lp {
    let mut ctx = blank();
    assert_eq!(initialize(&mut ctx), Ok(()));
    ctx.lp
}

fn funded_pool(sol: u64, sol_locked: u64, usdc: u64, usdc_locked: u64) -> Lp {
    let mut lp = fresh_pool();
    lp.sol.total_balance = sol;
    lp.sol.locked_balance = sol_locked;
    lp.usdc.total_balance = usdc;
    lp.usdc.locked_balance = usdc_locked;
    lp
}

fn usdc_withdrawal(lp: Lp) -> WithdrawUsdc {
    WithdrawUsdc {
        signer: key(ADMIN),
        signer_ata: account(USDC, ADMIN, 7),
        lp,
        lp_ata: account(USDC, POOL, lp.usdc.total_balance),
        users: Users { admin: key(ADMIN) },
    }
}

fn wsol_withdrawal(lp: Lp) -> WithdrawWsol {
    WithdrawWsol {
        signer: key(ADMIN),
        signer_ata: account(SOL, ADMIN, 7),
        lp,
        lp_ata: account(SOL, POOL, lp.sol.total_balance),
        users: Users { admin: key(ADMIN) },
    }
}

#[test]
fn initialize_creates_an_empty_pool() {
    let mut ctx = blank();
    assert_eq!(initialize(&mut ctx), Ok(()));
    assert!(ctx.lp.is_initialized);
    assert!(ctx.lp.is_valid());
    assert_eq!(ctx.lp.sol, Custody::new(key(SOL), key(20), 9));
    assert_eq!(ctx.lp.usdc, Custody::new(key(USDC), key(21), 6));
    assert_eq!(ctx.users.admin, key(ADMIN));
    assert_eq!(ctx.wsol_ata, account(SOL, POOL, 0));
    assert_eq!(ctx.usdc_ata, account(USDC, POOL, 0));
}

#[test]
fn initialize_happens_once() {
    let mut ctx = blank();
    assert_eq!(initialize(&mut ctx), Ok(()));
    ctx.lp.sol.total_balance = 5;
    ctx.signer = key(77);
    let before = ctx;
    assert_eq!(initialize(&mut ctx), Err(ErrorCode::Pool(PoolError::InvalidPoolState)));
    assert_eq!(ctx, before);
}

#[test]
fn initialize_needs_two_different_assets() {
    let mut ctx = blank();
    ctx.usdc_mint.address = key(SOL);
    assert_eq!(initialize(&mut ctx), Err(ErrorCode::Pool(PoolError::InvalidCustodyTokenError)));
    assert!(!ctx.lp.is_initialized);
}

#[test]
fn pool_reads_and_replaces_its_custodies() {
    let mut lp = fresh_pool();
    assert_eq!(lp.get_custody(true), lp.sol);
    assert_eq!(lp.get_custody(false), lp.usdc);
    let replacement = Custody { total_balance: 3, ..lp.usdc };
    lp.set_custody(false, replacement);
    assert_eq!(lp.usdc.total_balance, 3);
    assert_eq!(lp.sol.total_balance, 0);
}

#[test]
fn deposit_moves_tokens_into_the_pool() {
    let mut ctx = DepositWsol {
        signer: key(5),
        signer_ata: account(SOL, 5, 100),
        lp: fresh_pool(),
        lp_ata: account(SOL, POOL, 0),
    };
    assert_eq!(deposit_wsol(&mut ctx, 60), Ok(()));
    assert_eq!(ctx.lp.sol.total_balance, 60);
    assert_eq!(ctx.lp.usdc.total_balance, 0);
    assert_eq!(ctx.lp_ata.amount, 60);
    assert_eq!(ctx.signer_ata.amount, 40);

    let mut quote = DepositUsdc {
        signer: key(5),
        signer_ata: account(USDC, 5, 100),
        lp: ctx.lp,
        lp_ata: account(USDC, POOL, 0),
    };
    assert_eq!(deposit_usdc(&mut quote, 100), Ok(()));
    assert_eq!(quote.lp.usdc.total_balance, 100);
    assert_eq!(quote.lp.sol.total_balance, 60);
    assert_eq!(quote.signer_ata.amount, 0);
}

#[test]
fn deposit_beyond_the_balance_is_rejected() {
    let mut ctx = DepositUsdc {
        signer: key(5),
        signer_ata: account(USDC, 5, 100),
        lp: fresh_pool(),
        lp_ata: account(USDC, POOL, 0),
    };
    let before = ctx;
    assert_eq!(
        deposit_usdc(&mut ctx, 101),
        Err(ErrorCode::Pool(PoolError::InvalidSignerBalanceError))
    );
    assert_eq!(ctx, before);
}

#[test]
fn deposit_from_an_account_of_another_is_rejected() {
    let mut ctx = DepositWsol {
        signer: key(5),
        signer_ata: account(SOL, 6, 100),
        lp: fresh_pool(),
        lp_ata: account(SOL, POOL, 0),
    };
    assert_eq!(deposit_wsol(&mut ctx, 1), Err(ErrorCode::OptionBook(OptionError::InvalidOwner)));
}

#[test]
fn deposit_of_another_asset_is_rejected() {
    let mut ctx = DepositWsol {
        signer: key(5),
        signer_ata: account(USDC, 5, 100),
        lp: fresh_pool(),
        lp_ata: account(SOL, POOL, 0),
    };
    assert_eq!(
        deposit_wsol(&mut ctx, 1),
        Err(ErrorCode::Pool(PoolError::InvalidCustodyTokenError))
    );
}

#[test]
fn deposit_beyond_the_range_is_an_overflow() {
    let mut ctx = DepositUsdc {
        signer: key(5),
        signer_ata: account(USDC, 5, 100),
        lp: funded_pool(0, 0, u64::MAX - 99, 0),
        lp_ata: account(USDC, POOL, 0),
    };
    assert_eq!(deposit_usdc(&mut ctx, 100), Err(ErrorCode::Math(MathError::OverflowMathError)));
    assert_eq!(deposit_usdc(&mut ctx, 99), Ok(()));
}

#[test]
fn deposit_before_the_pool_is_initialized_is_rejected() {
    let mut ctx = DepositUsdc {
        signer: key(5),
        signer_ata: account(USDC, 5, 100),
        lp: blank().lp,
        lp_ata: account(USDC, POOL, 0),
    };
    assert_eq!(deposit_usdc(&mut ctx, 1), Err(ErrorCode::Pool(PoolError::InvalidPoolState)));
}

#[test]
fn withdraw_takes_free_balance_out_of_the_pool() {
    let mut ctx = usdc_withdrawal(funded_pool(50, 10, 1_000, 400));
    assert_eq!(withdraw_usdc(&mut ctx, 600), Ok(()));
    assert_eq!(ctx.lp.usdc.total_balance, 400);
    assert_eq!(ctx.lp.usdc.locked_balance, 400);
    assert_eq!(ctx.lp.sol.total_balance, 50);
    assert_eq!(ctx.lp_ata.amount, 400);
    assert_eq!(ctx.signer_ata.amount, 607);
    assert!(ctx.lp.is_valid());

    let mut sol = wsol_withdrawal(ctx.lp);
    assert_eq!(withdraw_wsol(&mut sol, 40), Ok(()));
    assert_eq!(sol.lp.sol.total_balance, 10);
    assert_eq!(sol.lp.sol.locked_balance, 10);
    assert_eq!(sol.lp.usdc.total_balance, 400);
    assert_eq!(sol.signer_ata.amount, 47);
}

#[test]
fn withdraw_of_locked_balance_is_rejected() {
    let mut ctx = usdc_withdrawal(funded_pool(50, 10, 1_000, 400));
    let before = ctx;
    assert_eq!(
        withdraw_usdc(&mut ctx, 601),
        Err(ErrorCode::Pool(PoolError::InvalidPoolBalanceError))
    );
    assert_eq!(ctx, before);
    let mut sol = wsol_withdrawal(funded_pool(50, 10, 1_000, 400));
    assert_eq!(
        withdraw_wsol(&mut sol, 41),
        Err(ErrorCode::Pool(PoolError::InvalidPoolBalanceError))
    );
}

#[test]
fn withdraw_beyond_the_token_account_is_rejected() {
    let mut ctx = usdc_withdrawal(funded_pool(50, 10, 1_000, 400));
    ctx.lp_ata.amount = 599;
    assert_eq!(
        withdraw_usdc(&mut ctx, 600),
        Err(ErrorCode::Pool(PoolError::InvalidPoolBalanceError))
    );
}

#[test]
fn withdraw_is_for_the_administrator() {
    let mut ctx = usdc_withdrawal(funded_pool(50, 10, 1_000, 400));
    ctx.signer = key(5);
    ctx.signer_ata.owner = key(5);
    let before = ctx;
    assert_eq!(withdraw_usdc(&mut ctx, 1), Err(ErrorCode::Pool(PoolError::AdminAuthorityError)));
    assert_eq!(ctx, before);
    let mut sol = wsol_withdrawal(funded_pool(50, 10, 1_000, 400));
    sol.users.admin = key(5);
    assert_eq!(withdraw_wsol(&mut sol, 1), Err(ErrorCode::Pool(PoolError::AdminAuthorityError)));
}

#[test]
fn balance_is_checked_before_authority() {
    let mut ctx = usdc_withdrawal(funded_pool(50, 10, 1_000, 400));
    ctx.signer = key(5);
    ctx.signer_ata.owner = key(5);
    assert_eq!(
        withdraw_usdc(&mut ctx, 1_001),
        Err(ErrorCode::Pool(PoolError::InvalidPoolBalanceError))
    );
}

#[test]
fn withdraw_into_an_account_of_another_is_rejected() {
    let mut ctx = usdc_withdrawal(funded_pool(50, 10, 1_000, 400));
    ctx.signer_ata.owner = key(5);
    assert_eq!(withdraw_usdc(&mut ctx, 1), Err(ErrorCode::OptionBook(OptionError::InvalidOwner)));
}

#[test]
fn withdraw_beyond_the_room_of_the_receiver_is_an_overflow() {
    let mut ctx = wsol_withdrawal(funded_pool(50, 10, 1_000, 400));
    ctx.signer_ata.amount = u64::MAX;
    assert_eq!(withdraw_wsol(&mut ctx, 1), Err(ErrorCode::Math(MathError::OverflowMathError)));
}

#[test]
fn movement_works_on_the_bare_records() {
    let mut m = Movement {
        custody: Custody { total_balance: 10, locked_balance: 4, ..Custody::new(key(SOL), key(20), 9) },
        lp_ata: account(SOL, POOL, 10),
        signer_ata: account(SOL, ADMIN, 0),
    };
    assert_eq!(m.withdraw(6, true), Ok(()));
    assert_eq!(m.custody.total_balance, 4);
    assert_eq!(m.withdraw(1, true), Err(ErrorCode::Pool(PoolError::InvalidPoolBalanceError)));
    assert_eq!(m.deposit(6), Ok(()));
    assert_eq!(m.custody.total_balance, 10);
    assert_eq!(m.signer_ata.amount, 0);
    assert_eq!(m.lp_ata.amount, 10);
}
