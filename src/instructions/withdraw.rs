use vstd::prelude::*;

use crate::errors::IntraverseErrorCode;
use crate::state::{Key, Pool};
use crate::vault::{apply_op, books_match, VaultBooks, VaultOp};
use crate::token::{burn, transfer, with_amount, with_supply, Mint, TokenAccount};

verus! {

/// The accounts that a withdrawal reads and changes.
#[derive(Clone, Copy, Debug, PartialEq, Eq, Structural)]
pub struct WithdrawPoolContext {
    pub pool_lp_mint: Mint,
    pub pool_treasury: TokenAccount,
    /// The caller's holding of the base asset.
    pub user_token_account: TokenAccount,
    /// The caller's holding of the pool's claim token.
    pub user_lp_token_account: TokenAccount,
    pub pool: Pool,
    pub signer: Key,
}

impl WithdrawPoolContext {
    /// The accounts belong to the pool and the caller, and their balances
    /// are ones that a token ledger can hold.
    pub open spec fn wired(&self) -> bool {
        &&& self.pool_lp_mint.key == self.pool.lp_mint
        &&& self.pool_treasury.mint == self.pool.mint
        &&& self.user_token_account.mint == self.pool.mint
        &&& self.user_lp_token_account.mint == self.pool.lp_mint
        &&& self.user_lp_token_account.amount <= self.pool_lp_mint.supply
        &&& self.user_token_account.amount + self.pool_treasury.amount <= u64::MAX
    }

    /// Tests `wired`.
    pub fn is_wired(&self) -> (r: bool)
        ensures
            r == self.wired(),
    {
        self.pool_lp_mint.key == self.pool.lp_mint && self.pool_treasury.mint == self.pool.mint
            && self.user_token_account.mint == self.pool.mint && self.user_lp_token_account.mint
            == self.pool.lp_mint && self.user_lp_token_account.amount <= self.pool_lp_mint.supply
            && self.user_token_account.amount <= u64::MAX - self.pool_treasury.amount
    }
}

/// Why a withdrawal of `amount` is refused, if it is.
pub open spec fn withdraw_error(c: WithdrawPoolContext, amount: u64) -> Option<IntraverseErrorCode> {
    if !c.pool.is_open {
        Some(IntraverseErrorCode::PoolIsClosed)
    } else if c.user_lp_token_account.amount < amount {
        Some(IntraverseErrorCode::LpBalanceInsufficient)
    } else if c.pool_treasury.amount < amount {
        Some(IntraverseErrorCode::InsufficientFunds)
    } else {
        None
    }
}

/// The accounts after a withdrawal: `amount` claim tokens burned, and as
/// much of the base asset moved from the treasury to the caller.
pub open spec fn withdrawn(c: WithdrawPoolContext, amount: u64) -> WithdrawPoolContext {
    WithdrawPoolContext {
        pool_lp_mint: with_supply(c.pool_lp_mint, c.pool_lp_mint.supply - amount),
        pool_treasury: with_amount(c.pool_treasury, c.pool_treasury.amount - amount),
        user_token_account: with_amount(c.user_token_account, c.user_token_account.amount + amount),
        user_lp_token_account: with_amount(
            c.user_lp_token_account,
            c.user_lp_token_account.amount - amount,
        ),
        ..c
    }
}

/// Burns `amount` of the caller's claim tokens of an open pool, then pays
/// out as much of the base asset.
pub fn handler(ctx: &mut WithdrawPoolContext, amount: u64) -> (r: Result<(), IntraverseErrorCode>)
    requires
        old(ctx).wired(),
    ensures
        match withdraw_error(*old(ctx), amount) {
            Some(e) => r == Err::<(), IntraverseErrorCode>(e) && *final(ctx) == *old(ctx),
            None => r == Ok::<(), IntraverseErrorCode>(()) && *final(ctx) == withdrawn(
                *old(ctx),
                amount,
            ),
        },
        final(ctx).wired(),
{
    if !ctx.pool.is_open {
        return Err(IntraverseErrorCode::PoolIsClosed);
    }
    if ctx.user_lp_token_account.amount < amount {
        return Err(IntraverseErrorCode::LpBalanceInsufficient);
    }
    if ctx.pool_treasury.amount < amount {
        return Err(IntraverseErrorCode::InsufficientFunds);
    }
    // the burn comes first, so that no more is paid out than was held
    burn(&mut ctx.pool_lp_mint, &mut ctx.user_lp_token_account, amount);
    transfer(&mut ctx.pool_treasury, &mut ctx.user_token_account, amount);
    Ok(())
}

/// A successful withdraw moves a pool's books as `apply_op` does: if the books
/// agree with the accounts before, they agree with them after.
pub proof fn lemma_withdraw_books(c: WithdrawPoolContext, amount: u64, v: VaultBooks, holder: nat)
    requires
        c.wired(),
        withdraw_error(c, amount) is None,
        books_match(
            v,
            c.pool_lp_mint.supply,
            c.pool_treasury.amount,
            holder,
            c.user_lp_token_account.amount,
        ),
    ensures
        books_match(
            apply_op(v, VaultOp::Withdraw { holder, amount: amount as nat }),
            withdrawn(c, amount).pool_lp_mint.supply,
            withdrawn(c, amount).pool_treasury.amount,
            holder,
            withdrawn(c, amount).user_lp_token_account.amount,
        ),
{
}

} // verus!
