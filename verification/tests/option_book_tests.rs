use option_contract::errors::{ContractError, ErrorCode, MathError, OptionError, PoolError};
use option_contract::instructions::auto_exercise::{
    auto_exercise, AutoExerciseOption, AutoExerciseOptionParams,
};
use option_contract::instructions::exercise_option::{
    exercise_option, ExerciseOption, ExerciseOptionParams,
};
use option_contract::instructions::expire_option::{expire_option, ExpireOption};
use option_contract::instructions::selloption::{sell_option, SellOption};
use option_contract::instructions::settlement::{check_position, Settlement};
use option_contract::state::account::{Pubkey, TokenAccount};
use option_contract::state::custody::Custody;
use option_contract::state::lp::{Lp, Users};
use option_contract::state::option_detail::{compute_payoff, OptionDetail, Payoff, User};
use option_contract::state::oracle::{OraclePrice, OracleQuote};

const NOW: i64 = 1_700_000_000;
const THIRTY_DAYS: i64 = 2_592_000;
const EXPIRY: i64 = NOW + THIRTY_DAYS;

fn key(n: u8) -> Pubkey {
    Pubkey::new([n; 32])
}

fn option_error(e: OptionError) -> ErrorCode {
    ErrorCode::OptionBook(e)
}

const BUYER: u8 = 1;
const ADMIN: u8 = 2;
const SOL: u8 = 10;
const USDC: u8 = 11;
const SOL_ORACLE: u8 = 20;
const USDC_ORACLE: u8 = 21;
const POOL: u8 = 30;

fn account(mint: u8, owner: u8, amount: u64) -> TokenAccount {
    TokenAccount { mint: key(mint), owner: key(owner), amount }
}

fn quote(price: i64, expo: i32, publish_time: i64) -> OracleQuote {
    OracleQuote { account: key(SOL_ORACLE), price, conf: 0, expo, publish_time }
}

fn pool(sol_decimals: u8, usdc_decimals: u8, sol: u64, usdc: u64) -> Lp {
    Lp {
        is_initialized: true,
        sol: Custody {
            mint: key(SOL),
            oracle: key(SOL_ORACLE),
            decimals: sol_decimals,
            total_balance: sol,
            locked_balance: 0,
        },
        usdc: Custody {
            mint: key(USDC),
            oracle: key(USDC_ORACLE),
            decimals: usdc_decimals,
            total_balance: usdc,
            locked_balance: 0,
        },
    }
}

fn sale(lp: Lp, spot: i64, expo: i32) -> SellOption {
    SellOption {
        signer: key(BUYER),
        signer_ata_wsol: account(SOL, BUYER, 5_000),
        signer_ata_usdc: account(USDC, BUYER, 5_000),
        lp,
        lp_ata_wsol: account(SOL, POOL, lp.sol.total_balance),
        lp_ata_usdc: account(USDC, POOL, lp.usdc.total_balance),
        user: Some(User { owner: key(BUYER), option_index: 0 }),
        option_detail: None,
        pyth_price_account: quote(spot, expo, NOW),
        current_time: NOW,
    }
}

fn sold_call() -> SellOption {
    let mut ctx = sale(pool(0, 0, 1_000, 100_000), 140, 0);
    assert_eq!(sell_option(&mut ctx, 10, 150, 0, EXPIRY, 1, true, false), Ok(()));
    ctx
}

fn sold_put() -> SellOption {
    let mut ctx = sale(pool(0, 0, 1_000, 100_000), 140, 0);
    assert_eq!(sell_option(&mut ctx, 10, 150, 0, EXPIRY, 1, false, false), Ok(()));
    ctx
}

fn exercise_of(sold: &SellOption, spot: i64, now: i64) -> ExerciseOption {
    let position = sold.option_detail.unwrap();
    let covered = position.custody == position.locked_custody;
    let locked = if covered { sold.lp.sol } else { sold.lp.usdc };
    ExerciseOption {
        owner: key(BUYER),
        funding_account: if covered { sold.signer_ata_wsol } else { sold.signer_ata_usdc },
        current_time: now,
        custody: sold.lp.sol,
        user: sold.user.unwrap(),
        option_detail: position,
        locked_custody: locked,
        locked_custody_token_account: if covered { sold.lp_ata_wsol } else { sold.lp_ata_usdc },
        custody_oracle: quote(spot, 0, now),
    }
}

fn auto_of(sold: &SellOption, spot: i64, now: i64) -> AutoExerciseOption {
    let e = exercise_of(sold, spot, now);
    AutoExerciseOption {
        tester: key(99),
        current_time: now,
        custody: e.custody,
        user: e.user,
        option_detail: e.option_detail,
        locked_custody: e.locked_custody,
        locked_custody_token_account: e.locked_custody_token_account,
        funding_account: e.funding_account,
        custody_oracle: e.custody_oracle,
    }
}

fn expire_of(sold: &SellOption, now: i64) -> ExpireOption {
    let e = exercise_of(sold, 1, now);
    ExpireOption {
        signer: key(ADMIN),
        users: Users { admin: key(ADMIN) },
        current_time: now,
        custody: e.custody,
        user: e.user,
        option_detail: e.option_detail,
        locked_custody: e.locked_custody,
        locked_custody_token_account: e.locked_custody_token_account,
        funding_account: e.funding_account,
    }
}

fn buyer_params() -> AutoExerciseOptionParams {
    AutoExerciseOptionParams { user: key(BUYER), option_index: 1 }
}

const FIRST: ExerciseOptionParams = ExerciseOptionParams { option_index: 1 };

#[test]
fn sell_call_charges_premium_and_locks_notional() {
    let ctx = sold_call();
    let position = ctx.option_detail.unwrap();
    assert_eq!(
        position,
        OptionDetail {
            owner: key(BUYER),
            index: 1,
            custody: key(SOL),
            locked_custody: key(SOL),
            quantity: 10,
            amount: 10,
            strike_price: 150,
            strike_exponent: 0,
            expired_date: EXPIRY,
            option_type: true,
            premium: 190,
            premium_unit: false,
            valid: true,
            exercised: 0,
            claimed: 0,
            profit: 0,
        }
    );
    assert!(position.can_settle());
    assert!(position.covered());
    assert_eq!(ctx.lp.sol.locked_balance, 10);
    assert_eq!(ctx.lp.sol.total_balance, 1_000);
    assert_eq!(ctx.lp.usdc.total_balance, 100_190);
    assert_eq!(ctx.lp.usdc.locked_balance, 0);
    assert_eq!(ctx.signer_ata_usdc.amount, 4_810);
    assert_eq!(ctx.lp_ata_usdc.amount, 100_190);
    assert_eq!(ctx.signer_ata_wsol.amount, 5_000);
    assert_eq!(ctx.lp_ata_wsol.amount, 1_000);
    assert_eq!(ctx.user, Some(User { owner: key(BUYER), option_index: 1 }));
}

#[test]
fn exercise_call_in_the_money_pays_the_owner() {
    let sold = sold_call();
    let mut ctx = exercise_of(&sold, 170, NOW + 100);
    assert_eq!(exercise_option(&mut ctx, &FIRST), Ok(()));
    assert_eq!(ctx.option_detail.profit, 200);
    assert_eq!(ctx.option_detail.claimed, 200);
    assert!(!ctx.option_detail.valid);
    assert_eq!(ctx.option_detail.exercised, (NOW + 100) as u64);
    assert_eq!(ctx.funding_account.amount, 5_200);
    assert_eq!(ctx.locked_custody_token_account.amount, 800);
    assert_eq!(ctx.locked_custody.locked_balance, 0);
    assert_eq!(ctx.locked_custody.total_balance, 800);
    assert_eq!(ctx.custody, ctx.locked_custody);
}

#[test]
fn auto_exercise_out_of_the_money_closes_for_nothing() {
    let sold = sold_call();
    let mut ctx = auto_of(&sold, 130, EXPIRY + 5);
    assert_eq!(auto_exercise(&mut ctx, &buyer_params()), Ok(()));
    assert_eq!(ctx.option_detail.claimed, 0);
    assert_eq!(ctx.option_detail.profit, 0);
    assert!(!ctx.option_detail.valid);
    assert_eq!(ctx.option_detail.exercised, (EXPIRY + 5) as u64);
    assert_eq!(ctx.locked_custody.locked_balance, 0);
    assert_eq!(ctx.locked_custody.total_balance, 1_000);
    assert_eq!(ctx.funding_account.amount, 5_000);
    assert_eq!(ctx.locked_custody_token_account.amount, 1_000);
}

#[test]
fn auto_exercise_in_the_money_pays_the_owner() {
    let sold = sold_call();
    let mut ctx = auto_of(&sold, 160, EXPIRY);
    assert_eq!(auto_exercise(&mut ctx, &buyer_params()), Ok(()));
    assert_eq!(ctx.option_detail.claimed, 100);
    assert_eq!(ctx.funding_account.amount, 5_100);
    assert_eq!(ctx.locked_custody.total_balance, 900);
    assert_eq!(ctx.locked_custody.locked_balance, 0);
}

#[test]
fn sell_put_locks_the_quote_asset() {
    let ctx = sold_put();
    let position = ctx.option_detail.unwrap();
    assert_eq!(position.locked_custody, key(USDC));
    assert_eq!(position.custody, key(SOL));
    assert!(!position.covered());
    assert_eq!(position.amount, 1_500);
    assert_eq!(position.premium, 220);
    assert_eq!(ctx.lp.usdc.locked_balance, 1_500);
    assert_eq!(ctx.lp.usdc.total_balance, 100_220);
    assert_eq!(ctx.lp.sol, pool(0, 0, 1_000, 0).sol);
}

#[test]
fn exercise_put_pays_strike_less_spot() {
    let sold = sold_put();
    let mut ctx = exercise_of(&sold, 120, NOW + 1);
    let sol_before = ctx.custody;
    assert_eq!(exercise_option(&mut ctx, &FIRST), Ok(()));
    assert_eq!(ctx.option_detail.claimed, 300);
    assert_eq!(ctx.funding_account.amount, 4_780 + 300);
    assert_eq!(ctx.locked_custody.locked_balance, 0);
    assert_eq!(ctx.locked_custody.total_balance, 100_220 - 300);
    assert_eq!(ctx.custody, sol_before);
}

#[test]
fn exercise_put_out_of_the_money_is_rejected() {
    let sold = sold_put();
    let mut ctx = exercise_of(&sold, 151, NOW + 1);
    let before = ctx;
    assert_eq!(
        exercise_option(&mut ctx, &FIRST),
        Err(option_error(OptionError::InvalidPriceRequirementError))
    );
    assert_eq!(ctx, before);
}

#[test]
fn sell_paid_in_the_underlying_credits_the_underlying() {
    let mut ctx = sale(pool(9, 6, 50_000_000_000, 0), 14_025_000_000, -8);
    ctx.signer_ata_wsol.amount = 2_000_000_000;
    assert_eq!(sell_option(&mut ctx, 10, 150, 0, EXPIRY, 1, true, true), Ok(()));
    let position = ctx.option_detail.unwrap();
    assert_eq!(position.premium, 1_339_639_360);
    assert!(position.premium_unit);
    assert_eq!(position.amount, 10_000_000_000);
    assert_eq!(ctx.signer_ata_wsol.amount, 2_000_000_000 - 1_339_639_360);
    assert_eq!(ctx.lp.sol.total_balance, 50_000_000_000 + 1_339_639_360);
    assert_eq!(ctx.lp.sol.locked_balance, 10_000_000_000);
    assert_eq!(ctx.lp_ata_wsol.amount, 50_000_000_000 + 1_339_639_360);
}

#[test]
fn premium_paid_counts_towards_the_capacity_to_lock() {
    let mut ctx = sale(pool(0, 0, 8, 0), 140, 0);
    assert_eq!(sell_option(&mut ctx, 10, 150, 0, EXPIRY, 1, true, true), Ok(()));
    assert_eq!(ctx.option_detail.unwrap().premium, 2);
    assert_eq!(ctx.lp.sol.total_balance, 10);
    assert_eq!(ctx.lp.sol.locked_balance, 10);
}

#[test]
fn sell_with_a_wrong_index_is_rejected() {
    for index in [0, 2, u64::MAX] {
        let mut ctx = sale(pool(0, 0, 1_000, 0), 140, 0);
        let before = ctx;
        assert_eq!(
            sell_option(&mut ctx, 10, 150, 0, EXPIRY, index, true, false),
            Err(option_error(OptionError::InvalidOptionIndexError))
        );
        assert_eq!(ctx, before);
    }
}

#[test]
fn sell_into_a_taken_slot_is_rejected() {
    let mut ctx = sold_call();
    ctx.user = Some(User { owner: key(BUYER), option_index: 0 });
    assert_eq!(
        sell_option(&mut ctx, 10, 150, 0, EXPIRY, 1, true, false),
        Err(option_error(OptionError::InvalidOptionIndexError))
    );
}

#[test]
fn sell_at_the_last_index_is_rejected() {
    let mut ctx = sale(pool(0, 0, 1_000, 0), 140, 0);
    ctx.user = Some(User { owner: key(BUYER), option_index: u64::MAX });
    assert_eq!(
        sell_option(&mut ctx, 10, 150, 0, EXPIRY, 0, true, false),
        Err(option_error(OptionError::InvalidOptionIndexError))
    );
}

#[test]
fn sell_to_a_buyer_without_the_premium_is_rejected() {
    let mut ctx = sale(pool(0, 0, 1_000, 0), 140, 0);
    ctx.signer_ata_usdc.amount = 189;
    let before = ctx;
    assert_eq!(
        sell_option(&mut ctx, 10, 150, 0, EXPIRY, 1, true, false),
        Err(option_error(OptionError::InvalidSignerBalanceError))
    );
    assert_eq!(ctx, before);
    ctx.signer_ata_usdc.amount = 190;
    assert_eq!(sell_option(&mut ctx, 10, 150, 0, EXPIRY, 1, true, false), Ok(()));
    assert_eq!(ctx.signer_ata_usdc.amount, 0);
}

#[test]
fn sell_beyond_the_free_collateral_is_rejected() {
    let mut ctx = sale(pool(0, 0, 9, 0), 140, 0);
    let before = ctx;
    assert_eq!(
        sell_option(&mut ctx, 10, 150, 0, EXPIRY, 1, true, false),
        Err(option_error(OptionError::InvalidPoolBalanceError))
    );
    assert_eq!(ctx, before);
}

#[test]
fn sell_on_a_stale_quote_is_rejected() {
    let mut ctx = sale(pool(0, 0, 1_000, 0), 140, 0);
    ctx.pyth_price_account.publish_time = NOW - 31;
    assert_eq!(
        sell_option(&mut ctx, 10, 150, 0, EXPIRY, 1, true, false),
        Err(option_error(OptionError::StalePriceError))
    );
}

#[test]
fn sell_on_a_quote_of_another_oracle_is_rejected() {
    let mut ctx = sale(pool(0, 0, 1_000, 0), 140, 0);
    ctx.pyth_price_account.account = key(USDC_ORACLE);
    assert_eq!(
        sell_option(&mut ctx, 10, 150, 0, EXPIRY, 1, true, false),
        Err(ErrorCode::Contract(ContractError::InvalidOracleAccount))
    );
}

#[test]
fn sell_with_accounts_of_another_asset_is_rejected() {
    let mut ctx = sale(pool(0, 0, 1_000, 0), 140, 0);
    ctx.signer_ata_usdc.mint = key(SOL);
    assert_eq!(
        sell_option(&mut ctx, 10, 150, 0, EXPIRY, 1, true, false),
        Err(option_error(OptionError::InvalidMintError))
    );
}

#[test]
fn sell_for_another_user_is_rejected() {
    let mut ctx = sale(pool(0, 0, 1_000, 0), 140, 0);
    ctx.user = Some(User { owner: key(77), option_index: 0 });
    assert_eq!(
        sell_option(&mut ctx, 10, 150, 0, EXPIRY, 1, true, false),
        Err(option_error(OptionError::InvalidOwner))
    );
    let mut other = sale(pool(0, 0, 1_000, 0), 140, 0);
    other.signer_ata_usdc.owner = key(77);
    assert_eq!(
        sell_option(&mut other, 10, 150, 0, EXPIRY, 1, true, false),
        Err(option_error(OptionError::InvalidOwner))
    );
}

#[test]
fn sell_before_the_pool_is_initialized_is_rejected() {
    let mut lp = pool(0, 0, 1_000, 0);
    lp.is_initialized = false;
    let mut ctx = sale(lp, 140, 0);
    assert_eq!(
        sell_option(&mut ctx, 10, 150, 0, EXPIRY, 1, true, false),
        Err(ErrorCode::Pool(PoolError::InvalidPoolState))
    );
}

#[test]
fn first_sale_creates_the_user() {
    let mut ctx = sale(pool(0, 0, 1_000, 0), 140, 0);
    ctx.user = None;
    assert_eq!(sell_option(&mut ctx, 10, 150, 0, EXPIRY, 1, true, false), Ok(()));
    assert_eq!(ctx.user, Some(User { owner: key(BUYER), option_index: 1 }));
    let mut second = sale(pool(0, 0, 1_000, 0), 140, 0);
    second.user = None;
    assert_eq!(
        sell_option(&mut second, 10, 150, 0, EXPIRY, 2, true, false),
        Err(option_error(OptionError::InvalidOptionIndexError))
    );
    assert_eq!(second.user, None);
}

#[test]
fn sell_of_nothing_is_rejected() {
    for (is_call, pay_sol) in [(true, false), (true, true), (false, false), (false, true)] {
        let mut ctx = sale(pool(0, 0, 1_000, 100_000), 140, 0);
        let before = ctx;
        assert_eq!(
            sell_option(&mut ctx, 0, 150, 0, NOW + 500, 1, is_call, pay_sol),
            Err(option_error(OptionError::InvalidPriceRequirementError))
        );
        assert_eq!(ctx, before);
        assert_eq!(ctx.user, Some(User { owner: key(BUYER), option_index: 0 }));
        assert_eq!(ctx.option_detail, None);
    }
}

#[test]
fn every_sale_charges_a_premium() {
    for (quantity, seconds, is_call, pay_sol) in [
        (1, 1, true, false),
        (1, 1, true, true),
        (1, 1, false, false),
        (1, 1, false, true),
        (10, 500, true, false),
        (10, 500, false, true),
    ] {
        let mut ctx = sale(pool(0, 0, 1_000, 100_000), 140, 0);
        assert_eq!(
            sell_option(&mut ctx, quantity, 150, 0, NOW + seconds, 1, is_call, pay_sol),
            Ok(())
        );
        assert!(ctx.option_detail.unwrap().premium > 0);
    }
}

#[test]
fn sell_with_no_time_left_is_rejected() {
    for expiry in [NOW, NOW - 1, i64::MIN] {
        let mut ctx = sale(pool(0, 0, 1_000, 0), 140, 0);
        let before = ctx;
        assert_eq!(
            sell_option(&mut ctx, 10, 150, 0, expiry, 1, true, false),
            Err(option_error(OptionError::InvalidTimeError))
        );
        assert_eq!(ctx, before);
    }
    let mut last = sale(pool(0, 0, 1_000, 0), 140, 0);
    assert_eq!(sell_option(&mut last, 10, 150, 0, NOW + 1, 1, true, false), Ok(()));
    assert_eq!(last.option_detail.unwrap().premium, 10);
}

#[test]
fn sell_with_a_strike_of_zero_is_rejected() {
    let mut ctx = sale(pool(0, 0, 1_000, 0), 140, 0);
    assert_eq!(
        sell_option(&mut ctx, 10, 0, 0, EXPIRY, 1, true, false),
        Err(option_error(OptionError::InvalidPriceRequirementError))
    );
}

#[test]
fn sell_too_large_to_price_is_an_overflow() {
    let mut ctx = sale(pool(0, 0, 1_000, 0), 140, 0);
    assert_eq!(
        sell_option(&mut ctx, u64::MAX, 150, 0, EXPIRY, 1, true, false),
        Err(ErrorCode::Math(MathError::OverflowMathError))
    );
}

#[test]
fn counter_moves_by_one_with_each_sale() {
    let mut ctx = sold_call();
    ctx.option_detail = None;
    assert_eq!(sell_option(&mut ctx, 1, 150, 0, EXPIRY, 2, true, false), Ok(()));
    assert_eq!(ctx.user.unwrap().option_index, 2);
    assert_eq!(ctx.option_detail.unwrap().index, 2);
    assert_eq!(ctx.lp.sol.locked_balance, 11);
}

#[test]
fn exercise_twice_fails_the_second_time_and_moves_nothing() {
    let sold = sold_call();
    let mut ctx = exercise_of(&sold, 170, NOW + 100);
    assert_eq!(exercise_option(&mut ctx, &FIRST), Ok(()));
    let after_first = ctx;
    assert_eq!(
        exercise_option(&mut ctx, &FIRST),
        Err(option_error(OptionError::OptionAlreadyExercised))
    );
    assert_eq!(ctx, after_first);
}

#[test]
fn auto_exercise_twice_fails_the_second_time_and_moves_nothing() {
    let sold = sold_call();
    let mut ctx = auto_of(&sold, 170, EXPIRY);
    assert_eq!(auto_exercise(&mut ctx, &buyer_params()), Ok(()));
    let after_first = ctx;
    assert_eq!(
        auto_exercise(&mut ctx, &buyer_params()),
        Err(option_error(OptionError::OptionAlreadyExercised))
    );
    assert_eq!(ctx, after_first);
}

#[test]
fn expire_twice_fails_the_second_time_and_moves_nothing() {
    let sold = sold_call();
    let mut ctx = expire_of(&sold, EXPIRY);
    assert_eq!(expire_option(&mut ctx, 1, 170, 0), Ok(()));
    assert_eq!(ctx.option_detail.claimed, 200);
    let after_first = ctx;
    assert_eq!(
        expire_option(&mut ctx, 1, 170, 0),
        Err(option_error(OptionError::OptionAlreadyExercised))
    );
    assert_eq!(ctx, after_first);
}

#[test]
fn settled_position_cannot_be_settled_another_way() {
    let sold = sold_call();
    let mut first = exercise_of(&sold, 170, NOW + 100);
    assert_eq!(exercise_option(&mut first, &FIRST), Ok(()));
    let mut later = auto_of(&sold, 170, EXPIRY);
    later.option_detail = first.option_detail;
    later.locked_custody = first.locked_custody;
    later.custody = first.custody;
    assert_eq!(
        auto_exercise(&mut later, &buyer_params()),
        Err(option_error(OptionError::OptionAlreadyExercised))
    );
    assert!(!later.option_detail.valid);
}

#[test]
fn pool_total_after_sale_and_exercise_is_conserved() {
    let before = pool(0, 0, 1_000, 100_000);
    let sold = sold_call();
    let mut ctx = exercise_of(&sold, 170, NOW + 100);
    assert_eq!(exercise_option(&mut ctx, &FIRST), Ok(()));
    let premium = ctx.option_detail.premium;
    let payout = ctx.option_detail.claimed;
    let after = ctx.locked_custody.total_balance + sold.lp.usdc.total_balance;
    assert_eq!(after, before.sol.total_balance + before.usdc.total_balance + premium - payout);
    assert_eq!(after, 101_000 + 190 - 200);
}

#[test]
fn exercise_at_the_strike_is_accepted_and_pays_nothing() {
    let sold = sold_call();
    let mut ctx = exercise_of(&sold, 150, NOW + 100);
    assert_eq!(exercise_option(&mut ctx, &FIRST), Ok(()));
    assert_eq!(ctx.option_detail.claimed, 0);
    assert_eq!(ctx.locked_custody.locked_balance, 0);
    assert_eq!(ctx.funding_account.amount, 5_000);
}

#[test]
fn exercise_below_the_strike_is_rejected() {
    let sold = sold_call();
    let mut ctx = exercise_of(&sold, 149, NOW + 100);
    let before = ctx;
    assert_eq!(
        exercise_option(&mut ctx, &FIRST),
        Err(option_error(OptionError::InvalidPriceRequirementError))
    );
    assert_eq!(ctx, before);
}

#[test]
fn auto_exercise_at_the_strike_settles_to_zero() {
    let sold = sold_call();
    let mut ctx = auto_of(&sold, 150, EXPIRY);
    assert_eq!(auto_exercise(&mut ctx, &buyer_params()), Ok(()));
    assert_eq!(ctx.option_detail.profit, 0);
    assert_eq!(ctx.locked_custody.locked_balance, 0);
}

#[test]
fn exercise_at_or_after_expiry_is_rejected() {
    let sold = sold_call();
    for now in [EXPIRY, EXPIRY + 1] {
        let mut ctx = exercise_of(&sold, 170, now);
        assert_eq!(
            exercise_option(&mut ctx, &FIRST),
            Err(option_error(OptionError::InvalidTimeError))
        );
    }
    let mut last = exercise_of(&sold, 170, EXPIRY - 1);
    assert_eq!(exercise_option(&mut last, &FIRST), Ok(()));
}

#[test]
fn auto_exercise_before_expiry_is_rejected() {
    let sold = sold_call();
    let mut ctx = auto_of(&sold, 170, EXPIRY - 1);
    let before = ctx;
    assert_eq!(
        auto_exercise(&mut ctx, &buyer_params()),
        Err(option_error(OptionError::InvalidTimeError))
    );
    assert_eq!(ctx, before);
}

#[test]
fn settlement_at_a_time_that_is_not_positive_is_rejected() {
    let mut sold = sold_call();
    let mut position = sold.option_detail.unwrap();
    position.expired_date = -10;
    sold.option_detail = Some(position);
    let mut ctx = auto_of(&sold, 170, 0);
    assert_eq!(
        auto_exercise(&mut ctx, &buyer_params()),
        Err(option_error(OptionError::InvalidTimeError))
    );
    let mut manual = exercise_of(&sold, 170, -20);
    assert_eq!(
        exercise_option(&mut manual, &FIRST),
        Err(option_error(OptionError::InvalidTimeError))
    );
}

#[test]
fn exercise_by_another_than_the_owner_is_rejected() {
    let sold = sold_call();
    let mut ctx = exercise_of(&sold, 170, NOW + 100);
    ctx.owner = key(77);
    assert_eq!(exercise_option(&mut ctx, &FIRST), Err(option_error(OptionError::InvalidOwner)));
    let mut paid_elsewhere = exercise_of(&sold, 170, NOW + 100);
    paid_elsewhere.funding_account.owner = key(77);
    assert_eq!(
        exercise_option(&mut paid_elsewhere, &FIRST),
        Err(option_error(OptionError::InvalidOwner))
    );
}

#[test]
fn auto_exercise_for_another_than_the_owner_is_rejected() {
    let sold = sold_call();
    let mut ctx = auto_of(&sold, 170, EXPIRY);
    let params = AutoExerciseOptionParams { user: key(77), option_index: 1 };
    assert_eq!(auto_exercise(&mut ctx, &params), Err(option_error(OptionError::InvalidOwner)));
}

#[test]
fn exercise_under_an_index_beyond_the_counter_is_rejected() {
    let sold = sold_call();
    let mut ctx = exercise_of(&sold, 170, NOW + 100);
    let params = ExerciseOptionParams { option_index: 2 };
    assert_eq!(
        exercise_option(&mut ctx, &params),
        Err(option_error(OptionError::InvalidOptionIndexError))
    );
    ctx.user.option_index = 5;
    assert_eq!(
        exercise_option(&mut ctx, &params),
        Err(option_error(OptionError::InvalidOptionIndexError))
    );
}

#[test]
fn position_that_is_not_valid_is_rejected() {
    let sold = sold_call();
    let mut ctx = exercise_of(&sold, 170, NOW + 100);
    ctx.option_detail.valid = false;
    assert_eq!(exercise_option(&mut ctx, &FIRST), Err(option_error(OptionError::OptionNotValid)));
    assert_eq!(
        check_position(&ctx.user, &ctx.option_detail, 1, &key(BUYER)),
        Err(option_error(OptionError::OptionNotValid))
    );
}

#[test]
fn exercise_on_a_stale_or_foreign_quote_is_rejected() {
    let sold = sold_call();
    let mut stale = exercise_of(&sold, 170, NOW + 100);
    stale.custody_oracle.publish_time = NOW + 69;
    assert_eq!(
        exercise_option(&mut stale, &FIRST),
        Err(option_error(OptionError::StalePriceError))
    );
    let mut foreign = exercise_of(&sold, 170, NOW + 100);
    foreign.custody_oracle.account = key(USDC_ORACLE);
    assert_eq!(
        exercise_option(&mut foreign, &FIRST),
        Err(ErrorCode::Contract(ContractError::InvalidOracleAccount))
    );
    let mut worthless = exercise_of(&sold, 0, NOW + 100);
    assert_eq!(
        exercise_option(&mut worthless, &FIRST),
        Err(option_error(OptionError::InvalidPriceRequirementError))
    );
}

#[test]
fn settlement_against_other_custodies_is_rejected() {
    let sold = sold_call();
    let mut ctx = exercise_of(&sold, 170, NOW + 100);
    ctx.locked_custody = sold.lp.usdc;
    assert_eq!(exercise_option(&mut ctx, &FIRST), Err(option_error(OptionError::InvalidMintError)));
    let mut vault = exercise_of(&sold, 170, NOW + 100);
    vault.locked_custody_token_account.mint = key(USDC);
    assert_eq!(exercise_option(&mut vault, &FIRST), Err(option_error(OptionError::InvalidMintError)));
}

#[test]
fn covered_settlement_with_two_different_records_is_rejected() {
    let sold = sold_call();
    let mut ctx = exercise_of(&sold, 170, NOW + 100);
    ctx.custody.total_balance += 1;
    assert_eq!(
        exercise_option(&mut ctx, &FIRST),
        Err(ErrorCode::Pool(PoolError::InvalidCustodyState))
    );
}

#[test]
fn settlement_with_less_locked_than_the_position_holds_is_rejected() {
    let sold = sold_call();
    let mut ctx = expire_of(&sold, EXPIRY);
    ctx.locked_custody.locked_balance = 9;
    ctx.custody = ctx.locked_custody;
    let before = ctx;
    assert_eq!(
        expire_option(&mut ctx, 1, 170, 0),
        Err(option_error(OptionError::InvalidLockedBalanceError))
    );
    assert_eq!(ctx, before);
}

#[test]
fn payout_beyond_the_free_balance_is_rejected() {
    let sold = sold_call();
    let mut ctx = exercise_of(&sold, 1_000, NOW + 100);
    assert_eq!(
        exercise_option(&mut ctx, &FIRST),
        Err(option_error(OptionError::InvalidPoolBalanceError))
    );
    let mut vault = exercise_of(&sold, 170, NOW + 100);
    vault.locked_custody_token_account.amount = 199;
    assert_eq!(
        exercise_option(&mut vault, &FIRST),
        Err(option_error(OptionError::InvalidPoolBalanceError))
    );
}

#[test]
fn payout_beyond_the_room_of_the_funding_account_is_an_overflow() {
    let sold = sold_call();
    let mut ctx = exercise_of(&sold, 170, NOW + 100);
    ctx.funding_account.amount = u64::MAX - 199;
    let before = ctx;
    assert_eq!(
        exercise_option(&mut ctx, &FIRST),
        Err(ErrorCode::Math(MathError::OverflowMathError))
    );
    assert_eq!(ctx, before);
}

#[test]
fn expire_is_for_the_administrator() {
    let sold = sold_call();
    let mut ctx = expire_of(&sold, EXPIRY);
    ctx.signer = key(BUYER);
    assert_eq!(
        expire_option(&mut ctx, 1, 170, 0),
        Err(ErrorCode::Pool(PoolError::AdminAuthorityError))
    );
}

#[test]
fn expire_settles_at_the_stated_price() {
    let sold = sold_call();
    let mut ctx = expire_of(&sold, EXPIRY + 1_000);
    assert_eq!(expire_option(&mut ctx, 1, 15_550, -2), Ok(()));
    assert_eq!(ctx.option_detail.claimed, 55);
    assert_eq!(ctx.locked_custody.locked_balance, 0);
    assert_eq!(ctx.locked_custody.total_balance, 945);
    assert_eq!(ctx.option_detail.exercised, (EXPIRY + 1_000) as u64);
}

#[test]
fn expire_out_of_the_money_releases_the_collateral() {
    let sold = sold_put();
    let mut ctx = expire_of(&sold, EXPIRY);
    assert_eq!(expire_option(&mut ctx, 1, 151, 0), Ok(()));
    assert_eq!(ctx.option_detail.claimed, 0);
    assert_eq!(ctx.locked_custody.locked_balance, 0);
    assert_eq!(ctx.locked_custody.total_balance, 100_220);
}

#[test]
fn expire_rejects_a_price_of_zero_and_an_open_term() {
    let sold = sold_call();
    let mut ctx = expire_of(&sold, EXPIRY);
    assert_eq!(
        expire_option(&mut ctx, 1, 0, 0),
        Err(option_error(OptionError::InvalidPriceRequirementError))
    );
    let mut early = expire_of(&sold, EXPIRY - 1);
    assert_eq!(
        expire_option(&mut early, 1, 170, 0),
        Err(option_error(OptionError::InvalidTimeError))
    );
}

#[test]
fn payoff_keeps_the_digits_of_both_prices() {
    assert_eq!(
        compute_payoff(17_055, -2, 150, 0, 10, 0, true),
        Ok(Payoff { in_the_money: true, amount: 205 })
    );
    assert_eq!(
        compute_payoff(17_055, -2, 150, 0, 10, 6, true),
        Ok(Payoff { in_the_money: true, amount: 205_500_000 })
    );
    assert_eq!(
        compute_payoff(17_055, -2, 150, 0, 10, 6, false),
        Ok(Payoff { in_the_money: false, amount: 0 })
    );
    assert_eq!(
        compute_payoff(150, 0, 150, 0, 10, 6, false),
        Ok(Payoff { in_the_money: true, amount: 0 })
    );
    assert_eq!(
        compute_payoff(u64::MAX, 0, 1, -1, 10, 6, true),
        Err(ErrorCode::Math(MathError::OverflowMathError))
    );
}

#[test]
fn position_payoff_goes_by_the_custodies_not_the_flag() {
    let mut position = sold_call().option_detail.unwrap();
    position.option_type = false;
    let spot = OraclePrice { price: 170, exponent: 0, confidence: 0, published_at: NOW };
    assert_eq!(position.payoff(&spot, 0), Ok(Payoff { in_the_money: true, amount: 200 }));
    position.locked_custody = key(USDC);
    assert_eq!(position.payoff(&spot, 0), Ok(Payoff { in_the_money: false, amount: 0 }));
}

#[test]
fn settle_works_on_the_bare_records() {
    let sold = sold_call();
    let e = exercise_of(&sold, 170, NOW + 100);
    let mut records = Settlement {
        option_detail: e.option_detail,
        custody: e.custody,
        locked_custody: e.locked_custody,
        locked_custody_token_account: e.locked_custody_token_account,
        funding_account: e.funding_account,
    };
    let spot = OraclePrice { price: 170, exponent: 0, confidence: 0, published_at: NOW };
    assert_eq!(records.settle(&spot, 77, true), Ok(()));
    assert_eq!(records.option_detail.exercised, 77);
    assert_eq!(records.option_detail.claimed, 200);
    assert_eq!(records.locked_custody.total_balance, 800);
}

#[test]
fn close_records_time_and_payout() {
    let mut position = sold_call().option_detail.unwrap();
    position.close(42, 7);
    assert!(!position.valid);
    assert!(!position.can_settle());
    assert_eq!(position.exercised, 42);
    assert_eq!(position.claimed, 7);
    assert_eq!(position.profit, 7);
}
