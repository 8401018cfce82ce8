use vstd::prelude::*;

use crate::errors::IntraverseErrorCode;
use crate::state::{Key, Pool};
use crate::vault::{apply_op, books_match, VaultBooks, VaultOp};
use crate::token::{mint_to, transfer, with_amount, with_supply, Mint, TokenAccount};

verus! {

/// The accounts that a deposit reads and changes.
#[derive(Clone, Copy, Debug, PartialEq, Eq, Structural)]
pub struct DepositPoolContext {
    pub pool_lp_mint: Mint,
    pub pool_treasury: TokenAccount,
    /// The depositor's holding of the base asset.
    pub user_token_account: TokenAccount,
    /// The depositor's holding of the pool's claim token.
    pub user_lp_token_account: TokenAccount,
    pub pool: Pool,
    pub authority: Key,
}

impl DepositPoolContext {
    /// The accounts belong to the pool and the depositor, and their balances
    /// are ones that a token ledger can hold.
    pub open spec fn wired(&self) -> bool {
        &&& self.pool_lp_mint.key == self.pool.lp_mint
        &&& self.pool_treasury.mint == self.pool.mint
        &&& self.user_token_account.mint == self.pool.mint
        &&& self.user_lp_token_account.mint == self.pool.lp_mint
        &&& self.user_lp_token_account.amount <= self.pool_lp_mint.supply
        &&& self.user_token_account.amount + self.pool_treasury.amount <= u64::MAX
    }

    /// Tests `wired`.
    pub fn is_wired(&self) -> (r: bool)
        ensures
            r == self.wired(),
    {
        self.pool_lp_mint.key == self.pool.lp_mint && self.pool_treasury.mint == self.pool.mint
            && self.user_token_account.mint == self.pool.mint && self.user_lp_token_account.mint
            == self.pool.lp_mint && self.user_lp_token_account.amount <= self.pool_lp_mint.supply
            && self.user_token_account.amount <= u64::MAX - self.pool_treasury.amount
    }
}

/// Why a deposit of `amount` is refused, if it is.
pub open spec fn deposit_error(c: DepositPoolContext, amount: u64) -> Option<IntraverseErrorCode> {
    if !c.pool.is_open {
        Some(IntraverseErrorCode::PoolIsClosed)
    } else if c.user_token_account.amount < amount {
        Some(IntraverseErrorCode::InsufficientFunds)
    } else if c.pool_lp_mint.supply + amount > u64::MAX {
        Some(IntraverseErrorCode::ArithmeticOverflow)
    } else {
        None
    }
}

/// The accounts after a deposit: `amount` moved into the treasury, and as
/// many claim tokens minted to the depositor.
pub open spec fn deposited(c: DepositPoolContext, amount: u64) -> DepositPoolContext {
    DepositPoolContext {
        pool_lp_mint: with_supply(c.pool_lp_mint, c.pool_lp_mint.supply + amount),
        pool_treasury: with_amount(c.pool_treasury, c.pool_treasury.amount + amount),
        user_token_account: with_amount(c.user_token_account, c.user_token_account.amount - amount),
        user_lp_token_account: with_amount(
            c.user_lp_token_account,
            c.user_lp_token_account.amount + amount,
        ),
        ..c
    }
}

/// Locks `amount` of the base asset in an open pool and mints the depositor
/// as many claim tokens.
pub fn handler(ctx: &mut DepositPoolContext, amount: u64) -> (r: Result<(), IntraverseErrorCode>)
    requires
        old(ctx).wired(),
    ensures
        match deposit_error(*old(ctx), amount) {
            Some(e) => r == Err::<(), IntraverseErrorCode>(e) && *final(ctx) == *old(ctx),
            None => r == Ok::<(), IntraverseErrorCode>(()) && *final(ctx) == deposited(
                *old(ctx),
                amount,
            ),
        },
        final(ctx).wired(),
{
    if !ctx.pool.is_open {
        return Err(IntraverseErrorCode::PoolIsClosed);
    }
    if ctx.user_token_account.amount < amount {
        return Err(IntraverseErrorCode::InsufficientFunds);
    }
    if ctx.pool_lp_mint.supply > u64::MAX - amount {
        return Err(IntraverseErrorCode::ArithmeticOverflow);
    }
    transfer(&mut ctx.user_token_account, &mut ctx.pool_treasury, amount);
    mint_to(&mut ctx.pool_lp_mint, &mut ctx.user_lp_token_account, amount);
    Ok(())
}

/// A successful deposit moves a pool's books as `apply_op` does: if the books
/// agree with the accounts before, they agree with them after.
pub proof fn lemma_deposit_books(c: DepositPoolContext, amount: u64, v: VaultBooks, holder: nat)
    requires
        c.wired(),
        deposit_error(c, amount) is None,
        books_match(
            v,
            c.pool_lp_mint.supply,
            c.pool_treasury.amount,
            holder,
            c.user_lp_token_account.amount,
        ),
    ensures
        books_match(
            apply_op(v, VaultOp::Deposit { holder, amount: amount as nat }),
            deposited(c, amount).pool_lp_mint.supply,
            deposited(c, amount).pool_treasury.amount,
            holder,
            deposited(c, amount).user_lp_token_account.amount,
        ),
{
}

} // verus!
