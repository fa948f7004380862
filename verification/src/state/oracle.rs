//! The oracle price adapter: turns a raw quote into a price that the
//! instructions may use, or rejects it.

use vstd::prelude::*;
use crate::errors::{ErrorCode, invalid_price, OptionError, stale_price};
use crate::state::account::Pubkey;

verus! {

/// The longest a quote may lag behind the current time, in seconds.
pub const MAX_PRICE_AGE_SEC: i64 = 30;

/// A quote as an oracle account publishes it.
#[derive(Clone, Copy, Debug, PartialEq, Eq)]
pub struct OracleQuote {
    /// The address of the oracle account that the quote was read from.
    pub account: Pubkey,
    pub price: i64,
    pub conf: u64,
    pub expo: i32,
    pub publish_time: i64,
}

/// A validated price: `price * 10^exponent`.
#[derive(Clone, Copy, Debug, PartialEq, Eq)]
pub struct OraclePrice {
    pub price: u64,
    pub exponent: i32,
    pub confidence: u64,
    pub published_at: i64,
}

/// What the adapter makes of `quote` at `current_time`: a quote older than
/// `MAX_PRICE_AGE_SEC` is stale, and one that is not positive is invalid.
pub open spec fn normalized(quote: OracleQuote, current_time: i64) -> Result<OraclePrice, ErrorCode> {
    if current_time - quote.publish_time > MAX_PRICE_AGE_SEC {
        Err(stale_price())
    } else if quote.price <= 0 {
        Err(invalid_price())
    } else {
        Ok(
            OraclePrice {
                price: quote.price as u64,
                exponent: quote.expo,
                confidence: quote.conf,
                published_at: quote.publish_time,
            },
        )
    }
}

impl OraclePrice {
    /// Validates a raw quote against the current time.
    pub fn new_from_oracle(quote: &OracleQuote, current_time: i64) -> (r: Result<
        OraclePrice,
        ErrorCode,
    >)
        ensures
            r == normalized(*quote, current_time),
    {
        let age: i128 = current_time as i128 - quote.publish_time as i128;
        if age > MAX_PRICE_AGE_SEC as i128 {
            Err(ErrorCode::OptionBook(OptionError::StalePriceError))
        } else if quote.price <= 0 {
            Err(ErrorCode::OptionBook(OptionError::InvalidPriceRequirementError))
        } else {
            Ok(
                OraclePrice {
                    price: quote.price as u64,
                    exponent: quote.expo,
                    confidence: quote.conf,
                    published_at: quote.publish_time,
                },
            )
        }
    }
}

} // verus!
