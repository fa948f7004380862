//! The records that the ledger keeps, and the transitions of each.

use vstd::prelude::*;
use crate::errors::ErrorCode;

pub mod account;
pub mod custody;
pub mod lp;
pub mod multisig;
pub mod option_detail;
pub mod oracle;
pub mod pool;

verus! {

/// How an operation on a state of type `S` ends, given the `outcome` that its
/// rules prescribe: on success the state becomes the prescribed one and the
/// prescribed value is returned; on failure the error is returned and the
/// state is left exactly as it was.
pub open spec fn transition<S, T>(
    outcome: Result<(S, T), ErrorCode>,
    before: S,
    after: S,
    returned: Result<T, ErrorCode>,
) -> bool {
    match outcome {
        Ok((state, value)) => returned == Ok::<T, ErrorCode>(value) && after == state,
        Err(e) => returned == Err::<T, ErrorCode>(e) && after == before,
    }
}

} // verus!
