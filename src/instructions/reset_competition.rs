use vstd::prelude::*;

use crate::errors::IntraverseErrorCode;
use crate::state::{Competition, Key, Outcome, Pool};
use crate::token::{transfer, with_amount, Mint, TokenAccount};

verus! {

/// One pool's accounts in a reset: the pool, its retiring and its new
/// claim-token mint, its treasury, and the owner's account that receives
/// what is left in the treasury.
#[derive(Clone, Copy, Debug, PartialEq, Eq, Structural)]
pub struct ResetAccounts {
    pub pool: Pool,
    pub old_lp_mint: Mint,
    pub new_lp_mint: Mint,
    pub treasury: TokenAccount,
    pub receiver: TokenAccount,
}

impl ResetAccounts {
    /// The accounts belong to the pool, and the treasury and the receiver,
    /// two holdings of one asset, add up to at most the largest `u64`.
    pub open spec fn wired(&self) -> bool {
        &&& self.old_lp_mint.key == self.pool.lp_mint
        &&& self.treasury.mint == self.pool.mint
        &&& self.receiver.mint == self.pool.mint
        &&& self.treasury.amount + self.receiver.amount <= u64::MAX
    }

    /// Tests `wired`.
    pub fn is_wired(&self) -> (r: bool)
        ensures
            r == self.wired(),
    {
        self.old_lp_mint.key == self.pool.lp_mint && self.treasury.mint == self.pool.mint
            && self.receiver.mint == self.pool.mint && self.treasury.amount <= u64::MAX
            - self.receiver.amount
    }
}

/// The accounts that a reset reads and changes.
#[derive(Clone, Copy, Debug, PartialEq, Eq, Structural)]
pub struct ResetCompetitionContext {
    pub competition: Competition,
    pub pool_a: ResetAccounts,
    pub pool_b: ResetAccounts,
    pub owner: Key,
}

impl ResetCompetitionContext {
    /// The caller owns the competition and both its pools.
    pub open spec fn wired(&self) -> bool {
        &&& self.owner == self.competition.owner
        &&& self.owner == self.pool_a.pool.owner
        &&& self.owner == self.pool_b.pool.owner
        &&& self.competition.pool_a == self.pool_a.pool.key
        &&& self.competition.pool_b == self.pool_b.pool.key
        &&& self.pool_a.wired()
        &&& self.pool_b.wired()
    }

    /// Tests `wired`.
    pub fn is_wired(&self) -> (r: bool)
        ensures
            r == self.wired(),
    {
        self.owner == self.competition.owner && self.owner == self.pool_a.pool.owner
            && self.owner == self.pool_b.pool.owner && self.competition.pool_a
            == self.pool_a.pool.key && self.competition.pool_b == self.pool_b.pool.key
            && self.pool_a.is_wired() && self.pool_b.is_wired()
    }
}

/// Why a reset is refused, if it is.
pub open spec fn reset_error(c: ResetCompetitionContext) -> Option<IntraverseErrorCode> {
    if c.competition.outcome == Outcome::Undecided {
        Some(IntraverseErrorCode::CompetitionIsOpen)
    } else {
        None
    }
}

/// One pool after a reset: its treasury drained to the receiver, and a new
/// claim-token series of the old one's decimals with no supply installed.
/// Whether the pool is open is left as it was.
pub open spec fn pool_reset(p: ResetAccounts) -> ResetAccounts {
    ResetAccounts {
        pool: Pool { lp_mint: p.new_lp_mint.key, ..p.pool },
        new_lp_mint: Mint {
            key: p.new_lp_mint.key,
            supply: 0,
            decimals: p.old_lp_mint.decimals,
            authority: p.old_lp_mint.authority,
        },
        treasury: with_amount(p.treasury, 0),
        receiver: with_amount(p.receiver, p.receiver.amount + p.treasury.amount),
        ..p
    }
}

/// Both pools reset and the competition-share series retired.
pub open spec fn competition_reset(c: ResetCompetitionContext) -> ResetCompetitionContext {
    ResetCompetitionContext {
        competition: Competition { players_lp_mint: None, ..c.competition },
        pool_a: pool_reset(c.pool_a),
        pool_b: pool_reset(c.pool_b),
        ..c
    }
}

/// Drains the treasury and rotates the claim-token series of one pool.
fn reset_pool(p: &mut ResetAccounts)
    requires
        old(p).wired(),
    ensures
        *final(p) == pool_reset(*old(p)),
{
    let remaining = p.treasury.amount;
    transfer(&mut p.treasury, &mut p.receiver, remaining);
    p.new_lp_mint = Mint {
        key: p.new_lp_mint.key,
        supply: 0,
        decimals: p.old_lp_mint.decimals,
        authority: p.old_lp_mint.authority,
    };
    p.pool.lp_mint = p.new_lp_mint.key;
}

/// Ends a resolved competition: drains both treasuries to the owner, gives
/// both pools a fresh claim-token series and retires the share series.
pub fn handler(ctx: &mut ResetCompetitionContext) -> (r: Result<(), IntraverseErrorCode>)
    requires
        old(ctx).wired(),
    ensures
        match reset_error(*old(ctx)) {
            Some(e) => r == Err::<(), IntraverseErrorCode>(e) && *final(ctx) == *old(ctx),
            None => r == Ok::<(), IntraverseErrorCode>(()) && *final(ctx) == competition_reset(
                *old(ctx),
            ),
        },
{
    if ctx.competition.is_open() {
        return Err(IntraverseErrorCode::CompetitionIsOpen);
    }
    reset_pool(&mut ctx.pool_a);
    reset_pool(&mut ctx.pool_b);
    ctx.competition.players_lp_mint = None;
    Ok(())
}

} // verus!
