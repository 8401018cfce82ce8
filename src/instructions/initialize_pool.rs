use vstd::prelude::*;

use crate::errors::IntraverseErrorCode;
use crate::state::{Key, Pool};
use crate::token::{Mint, TokenAccount};

verus! {

/// The accounts that opening a new pool reads and sets up.
#[derive(Clone, Copy, Debug, PartialEq, Eq, Structural)]
pub struct InitializePoolContext {
    /// The base asset's mint.
    pub pool_mint: Mint,
    /// The fresh account that becomes the pool's claim-token mint.
    pub pool_lp_mint: Mint,
    /// The fresh account that becomes the pool's treasury.
    pub pool_treasury: TokenAccount,
    /// The fresh pool record.
    pub pool: Pool,
    /// The pool-scoped authority over the claim-token mint and the treasury.
    pub pool_authority: Key,
    pub authority: Key,
}

/// The accounts once the pool is set up: open, owned by the caller, with an
/// empty treasury of the base asset and a claim-token mint of the base
/// asset's decimals and no supply.
pub open spec fn initialized(c: InitializePoolContext, activation_th: u64) -> InitializePoolContext {
    InitializePoolContext {
        pool_lp_mint: Mint {
            key: c.pool_lp_mint.key,
            supply: 0,
            decimals: c.pool_mint.decimals,
            authority: c.pool_authority,
        },
        pool_treasury: TokenAccount { mint: c.pool_mint.key, owner: c.pool_authority, amount: 0 },
        pool: Pool {
            key: c.pool.key,
            mint: c.pool_mint.key,
            lp_mint: c.pool_lp_mint.key,
            owner: c.authority,
            activation_th,
            is_open: true,
        },
        ..c
    }
}

/// Opens a new pool for the base asset with the given activation threshold.
pub fn handler(ctx: &mut InitializePoolContext, activation_th: u64) -> (r: Result<(), IntraverseErrorCode>)
    ensures
        r == Ok::<(), IntraverseErrorCode>(()),
        *final(ctx) == initialized(*old(ctx), activation_th),
{
    ctx.pool_lp_mint = Mint {
        key: ctx.pool_lp_mint.key,
        supply: 0,
        decimals: ctx.pool_mint.decimals,
        authority: ctx.pool_authority,
    };
    ctx.pool_treasury = TokenAccount {
        mint: ctx.pool_mint.key,
        owner: ctx.pool_authority,
        amount: 0,
    };
    ctx.pool = Pool {
        key: ctx.pool.key,
        mint: ctx.pool_mint.key,
        lp_mint: ctx.pool_lp_mint.key,
        owner: ctx.authority,
        activation_th,
        is_open: true,
    };
    Ok(())
}

} // verus!
