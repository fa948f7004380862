//! Custody registration: the designated signers add the custody of a new
//! asset to a pool. Nothing changes but the signatures until the last signer
//! needed has signed the same request.

use vstd::prelude::*;
use vstd::bytes::{spec_u32_to_le_bytes, u32_to_le_bytes};
use vstd::utf8::encode_utf8;
use crate::errors::{
    ErrorCode,
    invalid_custody_token,
    invalid_pool_state,
    MathError,
    overflow,
    PoolError,
};
use crate::state::account::{Mint, Pubkey, TokenAccount};
use crate::state::custody::Custody;
use crate::state::multisig::{AdminInstruction, Multisig, sha256, signed_bytes};
use crate::state::pool::{Pool, PoolView};
use crate::state::transition;

verus! {

/// What a registration asks for, beside the asset itself.
#[derive(Debug, PartialEq, Eq)]
pub struct AddCustodyParams {
    /// The oracle account that quotes the asset.
    pub oracle: Pubkey,
    /// The name of the pool that the custody is to join.
    pub pool_name: String,
}

/// The accounts of a registration.
#[derive(Debug, PartialEq, Eq)]
pub struct AddCustody {
    /// The caller, who must be a designated signer.
    pub signer: Pubkey,
    pub multisig: Multisig,
    pub pool: Pool,
    /// The record of the new custody: written when the registration goes
    /// through.
    pub custody: Custody,
    /// The pool's token account of the asset.
    pub custody_token_account: TokenAccount,
    /// The asset.
    pub custody_token_mint: Mint,
}

/// What the accounts of a registration are, to the contracts.
pub struct AddCustodyView {
    pub signer: Pubkey,
    pub multisig: Multisig,
    pub pool: PoolView,
    pub custody: Custody,
    pub custody_token_account: TokenAccount,
    pub custody_token_mint: Mint,
}

impl View for AddCustody {
    type V = AddCustodyView;

    open spec fn view(&self) -> AddCustodyView {
        AddCustodyView {
            signer: self.signer,
            multisig: self.multisig,
            pool: self.pool@,
            custody: self.custody,
            custody_token_account: self.custody_token_account,
            custody_token_mint: self.custody_token_mint,
        }
    }
}

/// The parameters of a registration as they are signed: the oracle's
/// address, the length of the pool's name in four bytes, low byte first, the
/// name in UTF-8, and the instruction's tag. The name must be shorter than
/// `2^32` bytes.
pub open spec fn instruction_data(oracle: Pubkey, pool_name: Seq<char>) -> Seq<u8> {
    oracle.bytes@ + spec_u32_to_le_bytes(encode_utf8(pool_name).len() as u32) + encode_utf8(
        pool_name,
    ) + seq![AdminInstruction::AddCustody.tag()]
}

/// What a registration prescribes. The request is bound to the asset, the
/// oracle and the pool's name, and the caller signs it. While signatures are
/// missing, only the signature is recorded and their number is returned.
/// With the last signature needed, the pool must be the one named and the
/// token account must be of the asset; then the asset joins the end of the
/// pool's list, which must not hold it yet, its custody record is written
/// with nothing in it, and 0 is returned.
pub open spec fn add_custody_outcome(ctx: AddCustodyView, oracle: Pubkey, pool_name: Seq<char>) -> Result<
    (AddCustodyView, u8),
    ErrorCode,
> {
    let data = instruction_data(oracle, pool_name);
    let accounts = seq![ctx.custody_token_mint.address];
    if encode_utf8(pool_name).len() > u32::MAX {
        Err(overflow())
    } else {
        match ctx.multisig.signed_by(
            ctx.signer,
            sha256(signed_bytes(accounts, data)),
            1,
            data.len() as u64,
        ) {
            Err(e) => Err(e),
            Ok((multisig, signatures_left)) => {
                if signatures_left > 0 {
                    Ok((AddCustodyView { multisig, ..ctx }, signatures_left))
                } else if pool_name != ctx.pool.name {
                    Err(invalid_pool_state())
                } else if ctx.custody_token_account.mint != ctx.custody_token_mint.address {
                    Err(invalid_custody_token())
                } else {
                    match ctx.pool.registered(ctx.custody_token_mint.address) {
                        Err(e) => Err(e),
                        Ok((pool, _)) => Ok(
                            (
                                AddCustodyView {
                                    multisig,
                                    pool,
                                    custody: Custody {
                                        mint: ctx.custody_token_mint.address,
                                        oracle,
                                        decimals: ctx.custody_token_mint.decimals,
                                        total_balance: 0,
                                        locked_balance: 0,
                                    },
                                    ..ctx
                                },
                                0u8,
                            ),
                        ),
                    }
                }
            },
        }
    }
}

fn append_bytes(out: &mut Vec<u8>, bytes: &[u8])
    ensures
        final(out)@ == old(out)@ + bytes@,
{
    let mut k: usize = 0;
    while k < bytes.len()
        invariant
            k <= bytes@.len(),
            out@ == old(out)@ + bytes@.take(k as int),
        decreases bytes@.len() - k,
    {
        out.push(bytes[k]);
        k = k + 1;
    }
}

impl AddCustodyParams {
    /// Encodes the parameters as they are signed.
    pub fn get_instruction_data(&self) -> (r: Result<Vec<u8>, ErrorCode>)
        ensures
            encode_utf8(self.pool_name@).len() > u32::MAX ==> r == Err::<Vec<u8>, ErrorCode>(
                overflow(),
            ),
            encode_utf8(self.pool_name@).len() <= u32::MAX ==> (r matches Ok(data) && data@
                == instruction_data(self.oracle, self.pool_name@)),
    {
        let name = self.pool_name.as_str().as_bytes();
        if name.len() > 0xffff_ffff {
            return Err(ErrorCode::Math(MathError::OverflowMathError));
        }
        let mut data: Vec<u8> = Vec::new();
        append_bytes(&mut data, self.oracle.bytes.as_slice());
        let length = u32_to_le_bytes(name.len() as u32);
        append_bytes(&mut data, length.as_slice());
        append_bytes(&mut data, name);
        data.push(AdminInstruction::AddCustody.to_tag());
        Ok(data)
    }
}

/// Signs the registration of a custody and, with the last signature needed,
/// carries it out. Returns the number of signatures still missing.
pub fn add_custody(ctx: &mut AddCustody, params: &AddCustodyParams) -> (r: Result<u8, ErrorCode>)
    ensures
        transition(
            add_custody_outcome(old(ctx)@, params.oracle, params.pool_name@),
            old(ctx)@,
            final(ctx)@,
            r,
        ),
{
    let data = params.get_instruction_data()?;
    let mut accounts: Vec<Pubkey> = Vec::new();
    accounts.push(ctx.custody_token_mint.address);
    let mut multisig = ctx.multisig;
    let signatures_left = multisig.sign_multisig(&ctx.signer, &accounts, &data)?;
    if signatures_left > 0 {
        ctx.multisig = multisig;
        return Ok(signatures_left);
    }
    if !(params.pool_name == ctx.pool.name) {
        return Err(ErrorCode::Pool(PoolError::InvalidPoolState));
    }
    if !(ctx.custody_token_account.mint == ctx.custody_token_mint.address) {
        return Err(ErrorCode::Pool(PoolError::InvalidCustodyTokenError));
    }
    ctx.pool.register(ctx.custody_token_mint.address)?;
    ctx.multisig = multisig;
    ctx.custody = Custody::new(
        ctx.custody_token_mint.address,
        params.oracle,
        ctx.custody_token_mint.decimals,
    );
    Ok(0)
}

} // verus!
