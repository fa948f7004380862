//! The error codes that the ledger's operations return.

use vstd::prelude::*;

verus! {

/// Failures of the option book: sale and settlement of positions.
#[derive(Clone, Copy, Debug, PartialEq, Eq, Structural)]
pub enum OptionError {
    InvalidPoolBalanceError,
    InvalidLockedBalanceError,
    InvalidSignerBalanceError,
    InvalidOptionIndexError,
    InvalidTimeError,
    InvalidPriceRequirementError,
    StalePriceError,
    OptionAlreadyExercised,
    OptionNotValid,
    InvalidOwner,
    InvalidMintError,
}

/// Failures of pool administration: deposits, withdrawals and custody
/// registration.
#[derive(Clone, Copy, Debug, PartialEq, Eq, Structural)]
pub enum PoolError {
    InvalidWithdrawError,
    InvalidPoolBalanceError,
    InvalidSignerBalanceError,
    InvalidCustodyTokenError,
    InvalidPoolState,
    InvalidCustodyState,
    AdminAuthorityError,
}

/// Failures of the threshold authorization of administrative instructions.
#[derive(Clone, Copy, Debug, PartialEq, Eq, Structural)]
pub enum MultiSigError {
    NotAuthorizedMultiSigError,
    AlreadySignedMultiSigError,
    AlreadyExecutedMultiSigError,
}

/// Failures of checked arithmetic.
#[derive(Clone, Copy, Debug, PartialEq, Eq, Structural)]
pub enum MathError {
    OverflowMathError,
}

/// Failures on the accounts handed to an instruction.
#[derive(Clone, Copy, Debug, PartialEq, Eq, Structural)]
pub enum ContractError {
    InvalidOracleAccount,
    StaleOraclePrice,
}

/// Any failure of an instruction, tagged with the component that raised it.
#[derive(Clone, Copy, Debug, PartialEq, Eq, Structural)]
pub enum ErrorCode {
    OptionBook(OptionError),
    Pool(PoolError),
    MultiSig(MultiSigError),
    Math(MathError),
    Contract(ContractError),
}

/// An arithmetic result that does not fit.
pub open spec fn overflow() -> ErrorCode {
    ErrorCode::Math(MathError::OverflowMathError)
}

/// The pool lacks the free balance that a position or a payout asks for.
pub open spec fn insufficient_pool_balance() -> ErrorCode {
    ErrorCode::OptionBook(OptionError::InvalidPoolBalanceError)
}

/// The custody has less locked than is to be released.
pub open spec fn insufficient_locked_balance() -> ErrorCode {
    ErrorCode::OptionBook(OptionError::InvalidLockedBalanceError)
}

/// The buyer cannot pay the premium.
pub open spec fn insufficient_signer_balance() -> ErrorCode {
    ErrorCode::OptionBook(OptionError::InvalidSignerBalanceError)
}

/// The index is not the one that the user or the position calls for.
pub open spec fn invalid_option_index() -> ErrorCode {
    ErrorCode::OptionBook(OptionError::InvalidOptionIndexError)
}

/// The call is on the wrong side of the expiry, or at no valid time.
pub open spec fn invalid_time() -> ErrorCode {
    ErrorCode::OptionBook(OptionError::InvalidTimeError)
}

/// The price is not positive, or the position is out of the money.
pub open spec fn invalid_price() -> ErrorCode {
    ErrorCode::OptionBook(OptionError::InvalidPriceRequirementError)
}

/// The quote is older than allowed.
pub open spec fn stale_price() -> ErrorCode {
    ErrorCode::OptionBook(OptionError::StalePriceError)
}

/// The position was settled before.
pub open spec fn already_exercised() -> ErrorCode {
    ErrorCode::OptionBook(OptionError::OptionAlreadyExercised)
}

/// The position is marked as not valid.
pub open spec fn not_valid() -> ErrorCode {
    ErrorCode::OptionBook(OptionError::OptionNotValid)
}

/// The caller or an account is not the owner called for.
pub open spec fn invalid_owner() -> ErrorCode {
    ErrorCode::OptionBook(OptionError::InvalidOwner)
}

/// An account is of another asset than called for.
pub open spec fn invalid_mint() -> ErrorCode {
    ErrorCode::OptionBook(OptionError::InvalidMintError)
}

/// The pool is not in the state, or not the pool, that the instruction calls for.
pub open spec fn invalid_pool_state() -> ErrorCode {
    ErrorCode::Pool(PoolError::InvalidPoolState)
}

/// Two records of one custody differ.
pub open spec fn invalid_custody_state() -> ErrorCode {
    ErrorCode::Pool(PoolError::InvalidCustodyState)
}

/// A mint or token account is not of the custody's asset.
pub open spec fn invalid_custody_token() -> ErrorCode {
    ErrorCode::Pool(PoolError::InvalidCustodyTokenError)
}

/// The asset has a custody in the pool already.
pub open spec fn already_registered() -> ErrorCode {
    ErrorCode::Pool(PoolError::InvalidCustodyState)
}

/// The pool lacks the free balance that a withdrawal asks for.
pub open spec fn pool_balance_too_low() -> ErrorCode {
    ErrorCode::Pool(PoolError::InvalidPoolBalanceError)
}

/// The depositor lacks the amount to deposit.
pub open spec fn signer_balance_too_low() -> ErrorCode {
    ErrorCode::Pool(PoolError::InvalidSignerBalanceError)
}

/// The caller is not the administrator.
pub open spec fn admin_authority() -> ErrorCode {
    ErrorCode::Pool(PoolError::AdminAuthorityError)
}

/// The caller is not a designated signer.
pub open spec fn not_authorized() -> ErrorCode {
    ErrorCode::MultiSig(MultiSigError::NotAuthorizedMultiSigError)
}

/// The signer has signed this instruction before.
pub open spec fn already_signed() -> ErrorCode {
    ErrorCode::MultiSig(MultiSigError::AlreadySignedMultiSigError)
}

/// The instruction has gone through already.
pub open spec fn already_executed() -> ErrorCode {
    ErrorCode::MultiSig(MultiSigError::AlreadyExecutedMultiSigError)
}

/// The quote does not come from the custody's oracle account.
pub open spec fn invalid_oracle_account() -> ErrorCode {
    ErrorCode::Contract(ContractError::InvalidOracleAccount)
}

} // verus!
