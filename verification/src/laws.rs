//! What holds of the ledger across operations: the invariants that every
//! instruction keeps, and what one call means for the next.

use vstd::prelude::*;
use vstd::bytes::{lemma_auto_spec_u32_to_from_le_bytes, spec_u32_to_le_bytes};
use vstd::utf8::{encode_utf8, encode_utf8_decode_utf8};
use crate::errors::{
    already_executed,
    already_exercised,
    already_signed,
    ErrorCode,
    invalid_price,
    not_authorized,
};
use crate::instructions::add_custody::{add_custody_outcome, AddCustodyView, instruction_data};
use crate::instructions::auto_exercise::{
    auto_exercise_outcome,
    AutoExerciseOption,
    AutoExerciseOptionParams,
};
use crate::instructions::exercise_option::{exercise_outcome, ExerciseOption, ExerciseOptionParams};
use crate::instructions::expire_option::{expire_outcome, ExpireOption, stated_price};
use crate::instructions::selloption::{
    lemma_quote_charges_premium,
    Quote,
    sale_quote,
    sell_outcome,
    SellOption,
    SellOrder,
};
use crate::instructions::settlement::{position_error, Settlement};
use crate::instructions::withdrawusdc::{withdraw_usdc_outcome, WithdrawUsdc};
use crate::instructions::withdrawwsol::{withdraw_wsol_outcome, WithdrawWsol};
use crate::math::{lemma_pow10_positive, pow10, scaled_value};
use crate::state::account::Pubkey;
use crate::state::multisig::{
    account_bytes,
    lemma_same_signers,
    lemma_signer_index_from,
    Multisig,
    signed_bytes,
};
use crate::state::option_detail::{Payoff, payoff_value, User};
use crate::state::oracle::{normalized, OraclePrice};

verus! {

/// A settlement keeps the custody invariant: where the custody that holds
/// the collateral locks no more than it holds before, it locks no more than
/// it holds after, and so does the custody of the underlying.
pub proof fn settlement_keeps_custody_invariant(
    records: Settlement,
    spot: OraclePrice,
    now: u64,
    must_be_in_the_money: bool,
)
    requires
        records.custody.wf(),
        records.locked_custody.wf(),
    ensures
        records.settled(spot, now, must_be_in_the_money) matches Ok((after, _)) ==> after.custody.wf()
            && after.locked_custody.wf(),
{
}

/// A sale keeps the custody invariant of both sides of the pool.
pub proof fn sale_keeps_custody_invariant(ctx: SellOption, order: SellOrder)
    requires
        ctx.lp.wf(),
    ensures
        sell_outcome(ctx, order) matches Ok((after, _)) ==> after.lp.wf(),
{
}

/// A sale creates its position open and well formed, under the index after
/// the buyer's latest, and moves the buyer's counter on by exactly one.
pub proof fn sale_opens_position(ctx: SellOption, order: SellOrder)
    ensures
        sell_outcome(ctx, order) matches Ok((after, _)) ==> {
            &&& after.option_detail matches Some(position)
            &&& position.is_open()
            &&& position.wf()
            &&& position.index == ctx.buyer().option_index + 1
            &&& after.user == Some(
                User { owner: ctx.signer, option_index: (ctx.buyer().option_index + 1) as u64 },
            )
        },
{
}

/// A settlement succeeds on an open position only, and leaves the position
/// closed for good: not valid, with the time of settlement recorded, which
/// is not zero where the time is not.
pub proof fn settlement_closes_position(
    records: Settlement,
    spot: OraclePrice,
    now: u64,
    must_be_in_the_money: bool,
)
    ensures
        records.settled(spot, now, must_be_in_the_money) matches Ok((after, _)) ==> {
            &&& !after.option_detail.valid
            &&& after.option_detail.exercised == now
            &&& now > 0 ==> after.option_detail.wf()
        },
{
}

/// No instruction settles a position that is not open. Since a failed
/// instruction changes nothing, a position that is not valid stays so under
/// every instruction.
pub proof fn only_open_positions_settle(
    exercise: ExerciseOption,
    exercise_params: ExerciseOptionParams,
    auto: AutoExerciseOption,
    auto_params: AutoExerciseOptionParams,
    expire: ExpireOption,
    option_index: u64,
    price: u64,
    exponent: i32,
)
    ensures
        exercise_outcome(exercise, exercise_params) is Ok ==> exercise.option_detail.is_open(),
        auto_exercise_outcome(auto, auto_params) is Ok ==> auto.option_detail.is_open(),
        expire_outcome(expire, option_index, price, exponent) is Ok
            ==> expire.option_detail.is_open(),
        exercise_outcome(exercise, exercise_params) matches Ok((after, _))
            ==> after.option_detail.wf() && !after.option_detail.is_open(),
        auto_exercise_outcome(auto, auto_params) matches Ok((after, _))
            ==> after.option_detail.wf() && !after.option_detail.is_open(),
        expire_outcome(expire, option_index, price, exponent) matches Ok((after, _))
            ==> after.option_detail.wf() && !after.option_detail.is_open(),
{
}

/// Once a position has been settled, whichever way, every instruction that
/// is called on it under its own index fails as already exercised.
pub proof fn settled_position_is_refused(
    exercise: ExerciseOption,
    auto: AutoExerciseOption,
    auto_user: Pubkey,
    expire: ExpireOption,
    option_index: u64,
    price: u64,
    exponent: i32,
)
    ensures
        (exercise.option_detail.exercised != 0 && exercise.option_detail.index == option_index
            && option_index <= exercise.user.option_index) ==> exercise_outcome(
            exercise,
            ExerciseOptionParams { option_index },
        ) == Err::<(ExerciseOption, ()), ErrorCode>(already_exercised()),
        (auto.option_detail.exercised != 0 && auto.option_detail.index == option_index
            && option_index <= auto.user.option_index) ==> auto_exercise_outcome(
            auto,
            AutoExerciseOptionParams { user: auto_user, option_index },
        ) == Err::<(AutoExerciseOption, ()), ErrorCode>(already_exercised()),
        (expire.option_detail.exercised != 0 && expire.option_detail.index == option_index
            && option_index <= expire.user.option_index && expire.signer == expire.users.admin)
            ==> expire_outcome(expire, option_index, price, exponent) == Err::<
            (ExpireOption, ()),
            ErrorCode,
        >(already_exercised()),
{
}

/// A manual exercise is one-shot: where a call succeeds, the same call on
/// the accounts it leaves fails as already exercised, and so changes no
/// balance.
pub proof fn exercise_is_one_shot(ctx: ExerciseOption, params: ExerciseOptionParams)
    ensures
        exercise_outcome(ctx, params) matches Ok((after, _)) ==> exercise_outcome(after, params)
            == Err::<(ExerciseOption, ()), ErrorCode>(already_exercised()),
{
}

/// An automatic exercise is one-shot.
pub proof fn auto_exercise_is_one_shot(ctx: AutoExerciseOption, params: AutoExerciseOptionParams)
    ensures
        auto_exercise_outcome(ctx, params) matches Ok((after, _)) ==> auto_exercise_outcome(
            after,
            params,
        ) == Err::<(AutoExerciseOption, ()), ErrorCode>(already_exercised()),
{
}

/// An expiry is one-shot.
pub proof fn expire_is_one_shot(ctx: ExpireOption, option_index: u64, price: u64, exponent: i32)
    ensures
        expire_outcome(ctx, option_index, price, exponent) matches Ok((after, _))
            ==> expire_outcome(after, option_index, price, exponent) == Err::<
            (ExpireOption, ()),
            ErrorCode,
        >(already_exercised()),
{
}

/// A sale adds the premium to what the pool holds and the collateral to what
/// it has locked, and moves the premium, and nothing else, from the buyer's
/// token account of the asset paid in to the pool's.
pub proof fn sale_collects_premium(ctx: SellOption, order: SellOrder, after: SellOption)
    requires
        sell_outcome(ctx, order) == Ok::<(SellOption, ()), ErrorCode>((after, ())),
    ensures
        after.option_detail is Some,
        after.lp.total_balance() == ctx.lp.total_balance() + after.option_detail->0.premium,
        after.lp.locked_balance() == ctx.lp.locked_balance() + after.option_detail->0.amount,
        after.lp.custody(order.is_call).locked_balance == ctx.lp.custody(
            order.is_call,
        ).locked_balance + after.option_detail->0.amount,
        after.lp.custody(!order.is_call).locked_balance == ctx.lp.custody(
            !order.is_call,
        ).locked_balance,
        after.signer_ata(order.pay_sol).amount == ctx.signer_ata(order.pay_sol).amount
            - after.option_detail->0.premium,
        after.lp_ata(order.pay_sol).amount == ctx.lp_ata(order.pay_sol).amount
            + after.option_detail->0.premium,
        after.signer_ata(!order.pay_sol) == ctx.signer_ata(!order.pay_sol),
        after.lp_ata(!order.pay_sol) == ctx.lp_ata(!order.pay_sol),
{
}

/// No sale is free: every sale that goes through charges a premium of one
/// base unit or more, in whichever asset it is paid. A sale of nothing is
/// refused.
pub proof fn sale_charges_premium(ctx: SellOption, order: SellOrder)
    ensures
        sell_outcome(ctx, order) matches Ok((after, _)) ==> (after.option_detail matches Some(
            position,
        ) && position.premium > 0 && position.quantity > 0),
        order.quantity == 0 ==> sell_outcome(ctx, order) is Err,
{
    if sell_outcome(ctx, order) is Ok {
        lemma_quote_charges_premium(
            normalized(ctx.pyth_price_account, ctx.current_time)->Ok_0,
            order,
            ctx.current_time,
            ctx.lp.sol.decimals,
            ctx.lp.usdc.decimals,
        );
    }
}

/// A settlement releases the position's collateral, takes the payout out of
/// the custody that held it, and moves the payout, and nothing else, from the
/// pool's token account to the owner's. The position records the payout as
/// claimed and as profit.
pub proof fn settlement_pays_out(
    records: Settlement,
    spot: OraclePrice,
    now: u64,
    must_be_in_the_money: bool,
    after: Settlement,
)
    requires
        records.settled(spot, now, must_be_in_the_money) == Ok::<(Settlement, ()), ErrorCode>(
            (after, ()),
        ),
    ensures
        records.option_detail.payoff_at(spot, records.locked_custody.decimals) matches Ok(payoff)
            && after.option_detail.claimed == payoff.amount,
        after.option_detail.profit == after.option_detail.claimed,
        after.locked_custody.total_balance == records.locked_custody.total_balance
            - after.option_detail.claimed,
        after.locked_custody.locked_balance == records.locked_custody.locked_balance
            - records.option_detail.amount,
        after.funding_account.amount == records.funding_account.amount
            + after.option_detail.claimed,
        after.locked_custody_token_account.amount == records.locked_custody_token_account.amount
            - after.option_detail.claimed,
{
}

/// Conservation over a sale and the settlement of the position it created:
/// what the pool holds afterwards is what it held before, plus the premium
/// collected, less the payout paid; and what it has locked is what it had
/// locked before.
pub proof fn sale_and_settlement_conserve(
    sale: SellOption,
    order: SellOrder,
    sold: SellOption,
    records: Settlement,
    spot: OraclePrice,
    now: u64,
    must_be_in_the_money: bool,
    settled: Settlement,
)
    requires
        sell_outcome(sale, order) == Ok::<(SellOption, ()), ErrorCode>((sold, ())),
        sold.option_detail == Some(records.option_detail),
        records.locked_custody == sold.lp.custody(order.is_call),
        records.settled(spot, now, must_be_in_the_money) == Ok::<(Settlement, ()), ErrorCode>(
            (settled, ()),
        ),
    ensures
        sold.lp.with_custody(order.is_call, settled.locked_custody).total_balance()
            == sale.lp.total_balance() + records.option_detail.premium
            - settled.option_detail.claimed,
        sold.lp.with_custody(order.is_call, settled.locked_custody).locked_balance()
            == sale.lp.locked_balance(),
{
    sale_collects_premium(sale, order, sold);
    settlement_pays_out(records, spot, now, must_be_in_the_money, settled);
}

/// Conservation over a sale and the manual exercise of the position it
/// created, with no withdrawal in between: what the pool holds afterwards is
/// what it held before, plus the premium collected, less the payout paid.
pub proof fn sale_and_exercise_conserve(
    sale: SellOption,
    order: SellOrder,
    sold: SellOption,
    exercise: ExerciseOption,
    params: ExerciseOptionParams,
    exercised: ExerciseOption,
)
    requires
        sell_outcome(sale, order) == Ok::<(SellOption, ()), ErrorCode>((sold, ())),
        sold.option_detail == Some(exercise.option_detail),
        exercise.locked_custody == sold.lp.custody(order.is_call),
        exercise_outcome(exercise, params) == Ok::<(ExerciseOption, ()), ErrorCode>(
            (exercised, ()),
        ),
    ensures
        sold.lp.with_custody(order.is_call, exercised.locked_custody).total_balance()
            == sale.lp.total_balance() + exercise.option_detail.premium
            - exercised.option_detail.claimed,
        sold.lp.with_custody(order.is_call, exercised.locked_custody).locked_balance()
            == sale.lp.locked_balance(),
        exercised.funding_account.amount == exercise.funding_account.amount
            + exercised.option_detail.claimed,
{
    let spot = normalized(exercise.custody_oracle, exercise.current_time)->Ok_0;
    let settled = exercise.settlement().settled(spot, exercise.current_time as u64, true)->Ok_0.0;
    sale_and_settlement_conserve(
        sale,
        order,
        sold,
        exercise.settlement(),
        spot,
        exercise.current_time as u64,
        true,
        settled,
    );
}

/// At the strike itself a position is in the money and pays nothing.
pub proof fn payoff_at_the_strike(
    price: nat,
    exponent: int,
    quantity: nat,
    decimals: nat,
    covered: bool,
)
    requires
        price <= u64::MAX,
        i32::MIN <= exponent <= i32::MAX,
    ensures
        payoff_value(price, exponent, price, exponent, quantity, decimals, covered) == Ok::<
            Payoff,
            ErrorCode,
        >(Payoff { in_the_money: true, amount: 0 }),
{
    assert(scaled_value(price, exponent, exponent) == price) by (nonlinear_arith)
        requires
            scaled_value(price, exponent, exponent) == price * pow10(0),
            pow10(0) == 1,
    ;
    let power = exponent + decimals;
    if power >= 0 {
        assert(0 * quantity * pow10(power as nat) == 0) by (nonlinear_arith);
    } else {
        lemma_pow10_positive((-power) as nat);
        assert((0 * quantity) / pow10((-power) as nat) == 0) by (nonlinear_arith)
            requires
                pow10((-power) as nat) > 0,
        ;
    }
}

/// The moneyness rule of a manual exercise: it goes through only in the
/// money, and out of the money it is rejected, not settled for nothing.
pub proof fn manual_exercise_requires_moneyness(records: Settlement, spot: OraclePrice, now: u64)
    ensures
        records.settled(spot, now, true) is Ok ==> (records.option_detail.payoff_at(
            spot,
            records.locked_custody.decimals,
        ) matches Ok(payoff) && payoff.in_the_money),
        (records.option_detail.payoff_at(spot, records.locked_custody.decimals) matches Ok(payoff)
            && !payoff.in_the_money && records.accounts_error() is None
            && records.locked_custody.locked_balance >= records.option_detail.amount)
            ==> records.settled(spot, now, true) == Err::<(Settlement, ()), ErrorCode>(
            invalid_price(),
        ),
{
}

/// A position that is out of the money when it is settled without the
/// moneyness rule is closed all the same: nothing is claimed, nothing is
/// paid, and the collateral is released.
pub proof fn worthless_position_still_closes(records: Settlement, spot: OraclePrice, now: u64)
    requires
        records.accounts_error() is None,
        records.locked_custody.wf(),
        records.locked_custody.locked_balance >= records.option_detail.amount,
        records.option_detail.payoff_at(spot, records.locked_custody.decimals) matches Ok(payoff)
            && !payoff.in_the_money,
    ensures
        records.settled(spot, now, false) matches Ok((after, _)) && {
            &&& after.option_detail.claimed == 0
            &&& after.option_detail.profit == 0
            &&& !after.option_detail.valid
            &&& after.locked_custody.locked_balance == records.locked_custody.locked_balance
                - records.option_detail.amount
            &&& after.locked_custody.total_balance == records.locked_custody.total_balance
            &&& after.funding_account == records.funding_account
            &&& after.locked_custody_token_account == records.locked_custody_token_account
        },
{
}

/// Signing keeps the authorizer's invariant.
pub proof fn signing_keeps_multisig_invariant(
    multisig: Multisig,
    signer: Pubkey,
    hash: [u8; 32],
    accounts_len: u64,
    data_len: u64,
)
    requires
        multisig.wf(),
    ensures
        multisig.signed_by(signer, hash, accounts_len, data_len) matches Ok((after, _))
            ==> after.wf(),
{
    lemma_signer_index_from(multisig, signer, 0);
    if multisig.signed_by(signer, hash, accounts_len, data_len) is Ok {
        let after = multisig.signed_by(signer, hash, accounts_len, data_len)->Ok_0.0;
        lemma_same_signers(multisig, after, signer, 0);
    }
}

/// What a signature returns is the number of signatures that the instruction
/// still lacks, and the instruction has gone through exactly when none is
/// lacking.
pub proof fn signing_counts_down(
    multisig: Multisig,
    signer: Pubkey,
    hash: [u8; 32],
    accounts_len: u64,
    data_len: u64,
)
    requires
        multisig.wf(),
    ensures
        multisig.signed_by(signer, hash, accounts_len, data_len) matches Ok((after, left)) ==> {
            &&& after.is_pending(hash, accounts_len, data_len)
            &&& after.signature_count() + left == after.min_signatures
            &&& after.executed <==> left == 0
            &&& after.signature_count() == multisig.proposal(
                hash,
                accounts_len,
                data_len,
            ).signature_count() + 1
        },
{
    lemma_signer_index_from(multisig, signer, 0);
    if multisig.signed_by(signer, hash, accounts_len, data_len) is Ok {
        let after = multisig.signed_by(signer, hash, accounts_len, data_len)->Ok_0.0;
        lemma_same_signers(multisig, after, signer, 0);
    }
}

/// No signer signs one instruction twice: after a signature, the same
/// signer's next one on the same instruction is refused as already given,
/// whether or not the instruction has gone through in between.
pub proof fn no_signer_signs_twice(
    multisig: Multisig,
    signer: Pubkey,
    hash: [u8; 32],
    accounts_len: u64,
    data_len: u64,
)
    ensures
        multisig.signed_by(signer, hash, accounts_len, data_len) matches Ok((after, _))
            ==> after.signed_by(signer, hash, accounts_len, data_len) == Err::<
            (Multisig, u8),
            ErrorCode,
        >(already_signed()),
{
    lemma_signer_index_from(multisig, signer, 0);
    if multisig.signed_by(signer, hash, accounts_len, data_len) is Ok {
        let after = multisig.signed_by(signer, hash, accounts_len, data_len)->Ok_0.0;
        lemma_same_signers(multisig, after, signer, 0);
    }
}

/// An instruction goes through once: after the signature that met the
/// threshold, every further signature on the same instruction is refused,
/// whoever gives it.
pub proof fn executed_instruction_is_final(
    multisig: Multisig,
    signer: Pubkey,
    hash: [u8; 32],
    accounts_len: u64,
    data_len: u64,
    after: Multisig,
    next_signer: Pubkey,
)
    requires
        multisig.signed_by(signer, hash, accounts_len, data_len) == Ok::<
            (Multisig, u8),
            ErrorCode,
        >((after, 0u8)),
    ensures
        after.executed,
        after.signed_by(next_signer, hash, accounts_len, data_len) matches Err(e) && (e
            == not_authorized() || e == already_signed() || e == already_executed()),
{
    lemma_signer_index_from(multisig, signer, 0);
    lemma_signer_index_from(after, next_signer, 0);
}

/// Signatures given to one instruction do not count towards another: the
/// first signature on an instruction that is not the pending one finds no
/// signature on it.
pub proof fn signatures_do_not_carry_over(
    multisig: Multisig,
    signer: Pubkey,
    hash: [u8; 32],
    accounts_len: u64,
    data_len: u64,
)
    requires
        !multisig.is_pending(hash, accounts_len, data_len),
    ensures
        multisig.signed_by(signer, hash, accounts_len, data_len) matches Ok((after, _))
            ==> after.signature_count() == 1,
{
    lemma_signer_index_from(multisig, signer, 0);
    if multisig.signed_by(signer, hash, accounts_len, data_len) is Ok {
        let after = multisig.signed_by(signer, hash, accounts_len, data_len)->Ok_0.0;
        lemma_same_signers(multisig, after, signer, 0);
    }
}

/// The addresses of `n` accounts take `32 * n` bytes.
pub proof fn account_bytes_length(accounts: Seq<Pubkey>)
    ensures
        account_bytes(accounts).len() == 32 * accounts.len(),
    decreases accounts.len(),
{
    if accounts.len() > 0 {
        account_bytes_length(accounts.drop_last());
    }
}

/// What is digested determines the instruction: two instructions with the
/// same number of accounts and the same digested bytes have the same
/// accounts and the same encoded parameters.
pub proof fn signed_bytes_determine_instruction(
    accounts1: Seq<Pubkey>,
    data1: Seq<u8>,
    accounts2: Seq<Pubkey>,
    data2: Seq<u8>,
)
    requires
        accounts1.len() == accounts2.len(),
        signed_bytes(accounts1, data1) == signed_bytes(accounts2, data2),
    ensures
        accounts1 == accounts2,
        data1 == data2,
{
    account_bytes_length(accounts1);
    account_bytes_length(accounts2);
    let whole1 = signed_bytes(accounts1, data1);
    let whole2 = signed_bytes(accounts2, data2);
    let split = account_bytes(accounts1).len() as int;
    assert(whole1.subrange(0, split) =~= account_bytes(accounts1));
    assert(whole2.subrange(0, split) =~= account_bytes(accounts2));
    assert(whole1.subrange(split, whole1.len() as int) =~= data1);
    assert(whole2.subrange(split, whole2.len() as int) =~= data2);
    account_bytes_determine_accounts(accounts1, accounts2);
}

/// The addresses of accounts, one after the other, determine the accounts.
pub proof fn account_bytes_determine_accounts(accounts1: Seq<Pubkey>, accounts2: Seq<Pubkey>)
    requires
        accounts1.len() == accounts2.len(),
        account_bytes(accounts1) == account_bytes(accounts2),
    ensures
        accounts1 == accounts2,
    decreases accounts1.len(),
{
    if accounts1.len() > 0 {
        let front1 = accounts1.drop_last();
        let front2 = accounts2.drop_last();
        account_bytes_length(front1);
        account_bytes_length(front2);
        let bytes1 = account_bytes(accounts1);
        let bytes2 = account_bytes(accounts2);
        let split = account_bytes(front1).len() as int;
        assert(bytes1.subrange(0, split) =~= account_bytes(front1));
        assert(bytes2.subrange(0, split) =~= account_bytes(front2));
        assert(bytes1.subrange(split, bytes1.len() as int) =~= accounts1.last().bytes@);
        assert(bytes2.subrange(split, bytes2.len() as int) =~= accounts2.last().bytes@);
        account_bytes_determine_accounts(front1, front2);
        assert(accounts1.last().bytes =~= accounts2.last().bytes);
        assert(accounts1 =~= front1.push(accounts1.last()));
        assert(accounts2 =~= front2.push(accounts2.last()));
    }
}

/// What is signed of a registration determines its parameters: two requests
/// with the same encoding name the same oracle and the same pool.
pub proof fn instruction_data_determines_parameters(
    oracle1: Pubkey,
    pool_name1: Seq<char>,
    oracle2: Pubkey,
    pool_name2: Seq<char>,
)
    requires
        encode_utf8(pool_name1).len() <= u32::MAX,
        encode_utf8(pool_name2).len() <= u32::MAX,
        instruction_data(oracle1, pool_name1) == instruction_data(oracle2, pool_name2),
    ensures
        oracle1 == oracle2,
        pool_name1 == pool_name2,
{
    lemma_auto_spec_u32_to_from_le_bytes();
    let data1 = instruction_data(oracle1, pool_name1);
    let data2 = instruction_data(oracle2, pool_name2);
    let name1 = encode_utf8(pool_name1);
    let name2 = encode_utf8(pool_name2);
    let length1 = spec_u32_to_le_bytes(name1.len() as u32);
    let length2 = spec_u32_to_le_bytes(name2.len() as u32);
    assert(data1.subrange(0, 32) =~= oracle1.bytes@);
    assert(data2.subrange(0, 32) =~= oracle2.bytes@);
    assert(oracle1.bytes =~= oracle2.bytes);
    assert(data1.subrange(32, 36) =~= length1);
    assert(data2.subrange(32, 36) =~= length2);
    assert(data1.subrange(36, 36 + name1.len() as int) =~= name1);
    assert(data2.subrange(36, 36 + name2.len() as int) =~= name2);
    encode_utf8_decode_utf8(pool_name1);
    encode_utf8_decode_utf8(pool_name2);
}

/// While signatures are missing, a registration records the signature and
/// touches neither the pool nor the custody; when it goes through, the asset
/// is the last of the pool's list and its custody is empty and well formed.
pub proof fn registration_waits_for_threshold(
    ctx: AddCustodyView,
    oracle: Pubkey,
    pool_name: Seq<char>,
)
    requires
        ctx.pool.wf(),
    ensures
        add_custody_outcome(ctx, oracle, pool_name) matches Ok((after, left)) ==> {
            &&& left > 0 ==> after.pool == ctx.pool && after.custody == ctx.custody
            &&& left == 0 ==> {
                &&& after.multisig.executed
                &&& !ctx.pool.custodies.contains(ctx.custody_token_mint.address)
                &&& after.pool.custodies == ctx.pool.custodies.push(ctx.custody_token_mint.address)
                &&& after.pool.custodies.last() == ctx.custody_token_mint.address
                &&& after.pool.name == ctx.pool.name
                &&& after.custody.mint == ctx.custody_token_mint.address
                &&& after.custody.oracle == oracle
                &&& after.custody.total_balance == 0
                &&& after.custody.locked_balance == 0
                &&& after.custody.wf()
            }
        },
{
}

/// When a sale is owed. The buyer's record is the buyer's and the order
/// carries the next index into an empty slot; the expiry lies ahead and the
/// order is for one unit or more; the accounts are in order; the quote is
/// fresh and positive and the order can be priced; the buyer holds the
/// premium; and the custody that backs the position has the collateral free
/// once the premium is in. Then the sale goes through: the premium, which is
/// positive, leaves the buyer's token account and reaches the pool's token
/// account and custody, the collateral is locked, the position records both
/// and is open, and the pool's invariant holds.
pub proof fn sale_goes_through(ctx: SellOption, order: SellOrder, spot: OraclePrice, quote: Quote)
    requires
        ctx.buyer().owner == ctx.signer,
        order.option_index == ctx.buyer().option_index + 1,
        ctx.option_detail is None,
        order.expired_time > ctx.current_time,
        order.quantity > 0,
        ctx.accounts_error() is None,
        ctx.lp.wf(),
        normalized(ctx.pyth_price_account, ctx.current_time) == Ok::<OraclePrice, ErrorCode>(spot),
        sale_quote(spot, order, ctx.current_time, ctx.lp.sol.decimals, ctx.lp.usdc.decimals)
            == Ok::<Quote, ErrorCode>(quote),
        ctx.signer_ata(order.pay_sol).amount >= quote.premium,
        ctx.lp_ata(order.pay_sol).amount + quote.premium <= u64::MAX,
        ctx.lp.custody(order.pay_sol).total_balance + quote.premium <= u64::MAX,
        ctx.lp.custody(order.is_call).available() + (if order.pay_sol == order.is_call {
            quote.premium as int
        } else {
            0
        }) >= quote.notional,
    ensures
        sell_outcome(ctx, order) matches Ok((after, _)) && {
            &&& after.option_detail matches Some(position)
            &&& position.is_open()
            &&& position.premium == quote.premium
            &&& position.amount == quote.notional
            &&& quote.premium > 0
            &&& after.signer_ata(order.pay_sol).amount == ctx.signer_ata(order.pay_sol).amount
                - quote.premium
            &&& after.lp_ata(order.pay_sol).amount == ctx.lp_ata(order.pay_sol).amount
                + quote.premium
            &&& after.lp.custody(order.pay_sol).total_balance == ctx.lp.custody(
                order.pay_sol,
            ).total_balance + quote.premium
            &&& after.lp.custody(order.is_call).locked_balance == ctx.lp.custody(
                order.is_call,
            ).locked_balance + quote.notional
            &&& after.lp.total_balance() == ctx.lp.total_balance() + quote.premium
            &&& after.lp.wf()
        },
{
    lemma_quote_charges_premium(
        spot,
        order,
        ctx.current_time,
        ctx.lp.sol.decimals,
        ctx.lp.usdc.decimals,
    );
}

/// When a settlement is owed. The accounts are in order, the custody locks
/// no more than it holds and at least the position's collateral, the
/// position can be valued at the spot and is in the money where that is
/// asked, and the payout is free in the custody once the collateral is
/// released, is held by the pool's token account and has room in the
/// owner's. Then the settlement goes through: the collateral is released,
/// the payout is paid and recorded as claimed and as profit, the position is
/// closed at the given time, and the custody still locks no more than it
/// holds. Out of the money the payout is zero.
pub proof fn settlement_goes_through(
    records: Settlement,
    spot: OraclePrice,
    now: u64,
    must_be_in_the_money: bool,
    payoff: Payoff,
)
    requires
        records.accounts_error() is None,
        records.locked_custody.wf(),
        records.locked_custody.locked_balance >= records.option_detail.amount,
        records.option_detail.payoff_at(spot, records.locked_custody.decimals) == Ok::<
            Payoff,
            ErrorCode,
        >(payoff),
        must_be_in_the_money ==> payoff.in_the_money,
        payoff.amount <= records.locked_custody.total_balance - (
        records.locked_custody.locked_balance - records.option_detail.amount),
        payoff.amount <= records.locked_custody_token_account.amount,
        records.funding_account.amount + payoff.amount <= u64::MAX,
    ensures
        !payoff.in_the_money ==> payoff.amount == 0,
        records.settled(spot, now, must_be_in_the_money) matches Ok((after, _)) && {
            &&& after.option_detail.claimed == payoff.amount
            &&& after.option_detail.profit == payoff.amount
            &&& !after.option_detail.valid
            &&& after.option_detail.exercised == now
            &&& after.locked_custody.locked_balance == records.locked_custody.locked_balance
                - records.option_detail.amount
            &&& after.locked_custody.total_balance == records.locked_custody.total_balance
                - payoff.amount
            &&& after.locked_custody.wf()
            &&& after.funding_account.amount == records.funding_account.amount + payoff.amount
            &&& after.locked_custody_token_account.amount
                == records.locked_custody_token_account.amount - payoff.amount
        },
{
}

/// A settlement goes by the price and its exponent alone: two spots that
/// agree in both settle a position alike, whoever stated them and whenever.
/// So an expiry at a stated price settles as an automatic exercise does at
/// that spot.
pub proof fn settlement_goes_by_the_price_alone(
    records: Settlement,
    quoted: OraclePrice,
    stated: OraclePrice,
    now: u64,
    must_be_in_the_money: bool,
)
    requires
        quoted.price == stated.price,
        quoted.exponent == stated.exponent,
    ensures
        records.settled(quoted, now, must_be_in_the_money) == records.settled(
            stated,
            now,
            must_be_in_the_money,
        ),
{
}

/// When a manual exercise is owed: the position is the caller's, open and
/// under the given index, the payout account is the caller's, the time is
/// positive and before the expiry, the quote comes from the custody's oracle
/// and is fresh and positive, and the settlement is owed with the position
/// in the money. Then the exercise goes through as the settlement does.
pub proof fn exercise_goes_through(
    ctx: ExerciseOption,
    params: ExerciseOptionParams,
    spot: OraclePrice,
    payoff: Payoff,
)
    requires
        position_error(ctx.user, ctx.option_detail, params.option_index, ctx.owner) is None,
        ctx.funding_account.owner == ctx.owner,
        0 < ctx.current_time < ctx.option_detail.expired_date,
        ctx.custody_oracle.account == ctx.custody.oracle,
        normalized(ctx.custody_oracle, ctx.current_time) == Ok::<OraclePrice, ErrorCode>(spot),
        ctx.settlement().accounts_error() is None,
        ctx.locked_custody.wf(),
        ctx.locked_custody.locked_balance >= ctx.option_detail.amount,
        ctx.option_detail.payoff_at(spot, ctx.locked_custody.decimals) == Ok::<Payoff, ErrorCode>(
            payoff,
        ),
        payoff.in_the_money,
        payoff.amount <= ctx.locked_custody.total_balance - (ctx.locked_custody.locked_balance
            - ctx.option_detail.amount),
        payoff.amount <= ctx.locked_custody_token_account.amount,
        ctx.funding_account.amount + payoff.amount <= u64::MAX,
    ensures
        exercise_outcome(ctx, params) matches Ok((after, _)) && {
            &&& after.option_detail.claimed == payoff.amount
            &&& after.option_detail.profit == payoff.amount
            &&& !after.option_detail.valid
            &&& after.option_detail.exercised == ctx.current_time
            &&& after.locked_custody.locked_balance == ctx.locked_custody.locked_balance
                - ctx.option_detail.amount
            &&& after.locked_custody.total_balance == ctx.locked_custody.total_balance
                - payoff.amount
            &&& after.locked_custody.wf()
            &&& after.funding_account.amount == ctx.funding_account.amount + payoff.amount
        },
{
    settlement_goes_through(ctx.settlement(), spot, ctx.current_time as u64, true, payoff);
}

/// When an automatic exercise is owed: the position is the named user's,
/// open and under the given index, the payout account is that user's, the
/// time is positive and not before the expiry, the quote comes from the
/// custody's oracle and is fresh and positive, and the settlement is owed.
/// Then the exercise goes through as the settlement does, for nothing where
/// the position is out of the money.
pub proof fn auto_exercise_goes_through(
    ctx: AutoExerciseOption,
    params: AutoExerciseOptionParams,
    spot: OraclePrice,
    payoff: Payoff,
)
    requires
        position_error(ctx.user, ctx.option_detail, params.option_index, params.user) is None,
        ctx.funding_account.owner == params.user,
        0 < ctx.current_time,
        ctx.current_time >= ctx.option_detail.expired_date,
        ctx.custody_oracle.account == ctx.custody.oracle,
        normalized(ctx.custody_oracle, ctx.current_time) == Ok::<OraclePrice, ErrorCode>(spot),
        ctx.settlement().accounts_error() is None,
        ctx.locked_custody.wf(),
        ctx.locked_custody.locked_balance >= ctx.option_detail.amount,
        ctx.option_detail.payoff_at(spot, ctx.locked_custody.decimals) == Ok::<Payoff, ErrorCode>(
            payoff,
        ),
        payoff.amount <= ctx.locked_custody.total_balance - (ctx.locked_custody.locked_balance
            - ctx.option_detail.amount),
        payoff.amount <= ctx.locked_custody_token_account.amount,
        ctx.funding_account.amount + payoff.amount <= u64::MAX,
    ensures
        !payoff.in_the_money ==> payoff.amount == 0,
        auto_exercise_outcome(ctx, params) matches Ok((after, _)) && {
            &&& after.option_detail.claimed == payoff.amount
            &&& after.option_detail.profit == payoff.amount
            &&& !after.option_detail.valid
            &&& after.option_detail.exercised == ctx.current_time
            &&& after.locked_custody.locked_balance == ctx.locked_custody.locked_balance
                - ctx.option_detail.amount
            &&& after.locked_custody.total_balance == ctx.locked_custody.total_balance
                - payoff.amount
            &&& after.locked_custody.wf()
            &&& after.funding_account.amount == ctx.funding_account.amount + payoff.amount
        },
{
    settlement_goes_through(ctx.settlement(), spot, ctx.current_time as u64, false, payoff);
}

/// When an expiry is owed: the caller is the administrator, the position is
/// the user's, open and under the given index, the payout account is that
/// user's, the time is positive and not before the expiry, the stated price
/// is positive, and the settlement is owed at that price. Then the expiry
/// goes through: the collateral is released, the custody still locks no more
/// than it holds, and what the position is worth at the stated price is paid
/// and recorded, which is nothing where it is out of the money.
pub proof fn expiry_goes_through(
    ctx: ExpireOption,
    option_index: u64,
    price: u64,
    exponent: i32,
    payoff: Payoff,
)
    requires
        ctx.signer == ctx.users.admin,
        position_error(ctx.user, ctx.option_detail, option_index, ctx.user.owner) is None,
        ctx.funding_account.owner == ctx.user.owner,
        0 < ctx.current_time,
        ctx.current_time >= ctx.option_detail.expired_date,
        price > 0,
        ctx.settlement().accounts_error() is None,
        ctx.locked_custody.wf(),
        ctx.locked_custody.locked_balance >= ctx.option_detail.amount,
        ctx.option_detail.payoff_at(
            stated_price(price, exponent, ctx.current_time),
            ctx.locked_custody.decimals,
        ) == Ok::<Payoff, ErrorCode>(payoff),
        payoff.amount <= ctx.locked_custody.total_balance - (ctx.locked_custody.locked_balance
            - ctx.option_detail.amount),
        payoff.amount <= ctx.locked_custody_token_account.amount,
        ctx.funding_account.amount + payoff.amount <= u64::MAX,
    ensures
        !payoff.in_the_money ==> payoff.amount == 0,
        expire_outcome(ctx, option_index, price, exponent) matches Ok((after, _)) && {
            &&& after.option_detail.claimed == payoff.amount
            &&& after.option_detail.profit == payoff.amount
            &&& !after.option_detail.valid
            &&& after.option_detail.exercised == ctx.current_time
            &&& after.locked_custody.locked_balance == ctx.locked_custody.locked_balance
                - ctx.option_detail.amount
            &&& after.locked_custody.total_balance == ctx.locked_custody.total_balance
                - payoff.amount
            &&& after.locked_custody.wf()
            &&& after.funding_account.amount == ctx.funding_account.amount + payoff.amount
        },
{
    settlement_goes_through(
        ctx.settlement(),
        stated_price(price, exponent, ctx.current_time),
        ctx.current_time as u64,
        false,
        payoff,
    );
}

/// An expiry at a stated price leaves the records as an automatic exercise
/// at a quote of that price does, where both are called on the same records
/// at the same time and both go through.
pub proof fn expiry_settles_as_auto_exercise(
    expire: ExpireOption,
    option_index: u64,
    price: u64,
    exponent: i32,
    auto: AutoExerciseOption,
    params: AutoExerciseOptionParams,
    expired: ExpireOption,
    exercised: AutoExerciseOption,
)
    requires
        expire.settlement() == auto.settlement(),
        expire.current_time == auto.current_time,
        auto.custody_oracle.price == price,
        auto.custody_oracle.expo == exponent,
        expire_outcome(expire, option_index, price, exponent) == Ok::<
            (ExpireOption, ()),
            ErrorCode,
        >((expired, ())),
        auto_exercise_outcome(auto, params) == Ok::<(AutoExerciseOption, ()), ErrorCode>(
            (exercised, ()),
        ),
    ensures
        expired.settlement() == exercised.settlement(),
{
    settlement_goes_by_the_price_alone(
        expire.settlement(),
        normalized(auto.custody_oracle, auto.current_time)->Ok_0,
        stated_price(price, exponent, expire.current_time),
        expire.current_time as u64,
        false,
    );
}

/// When a withdrawal of the quote asset is owed: the pool is initialized,
/// the caller is the administrator and owns the receiving token account,
/// both token accounts are of the quote asset, the custody locks no more
/// than it holds, and the amount is free in the custody, held by the pool's
/// token account and has room in the caller's. Then the withdrawal goes
/// through: what the custody holds falls by the amount, what it has locked
/// stays, which is still no more than it holds, and exactly the amount moves
/// from the pool's token account to the caller's.
pub proof fn withdrawal_of_usdc_goes_through(ctx: WithdrawUsdc, amount: u64)
    requires
        ctx.lp.is_initialized,
        ctx.signer == ctx.users.admin,
        ctx.signer_ata.owner == ctx.signer,
        ctx.lp_ata.mint == ctx.lp.usdc.mint,
        ctx.signer_ata.mint == ctx.lp.usdc.mint,
        ctx.lp.usdc.wf(),
        amount <= ctx.lp.usdc.total_balance - ctx.lp.usdc.locked_balance,
        amount <= ctx.lp_ata.amount,
        ctx.signer_ata.amount + amount <= u64::MAX,
    ensures
        withdraw_usdc_outcome(ctx, amount) matches Ok((after, _)) && {
            &&& after.lp.usdc.total_balance == ctx.lp.usdc.total_balance - amount
            &&& after.lp.usdc.locked_balance == ctx.lp.usdc.locked_balance
            &&& after.lp.usdc.wf()
            &&& after.lp.sol == ctx.lp.sol
            &&& after.lp_ata.amount == ctx.lp_ata.amount - amount
            &&& after.signer_ata.amount == ctx.signer_ata.amount + amount
        },
{
}

/// When a withdrawal of the underlying is owed, and what it does: as for the
/// quote asset, on the other side of the pool.
pub proof fn withdrawal_of_wsol_goes_through(ctx: WithdrawWsol, amount: u64)
    requires
        ctx.lp.is_initialized,
        ctx.signer == ctx.users.admin,
        ctx.signer_ata.owner == ctx.signer,
        ctx.lp_ata.mint == ctx.lp.sol.mint,
        ctx.signer_ata.mint == ctx.lp.sol.mint,
        ctx.lp.sol.wf(),
        amount <= ctx.lp.sol.total_balance - ctx.lp.sol.locked_balance,
        amount <= ctx.lp_ata.amount,
        ctx.signer_ata.amount + amount <= u64::MAX,
    ensures
        withdraw_wsol_outcome(ctx, amount) matches Ok((after, _)) && {
            &&& after.lp.sol.total_balance == ctx.lp.sol.total_balance - amount
            &&& after.lp.sol.locked_balance == ctx.lp.sol.locked_balance
            &&& after.lp.sol.wf()
            &&& after.lp.usdc == ctx.lp.usdc
            &&& after.lp_ata.amount == ctx.lp_ata.amount - amount
            &&& after.signer_ata.amount == ctx.signer_ata.amount + amount
        },
{
}

} // verus!
