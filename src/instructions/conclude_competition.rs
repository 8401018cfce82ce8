use vstd::prelude::*;

use crate::errors::IntraverseErrorCode;
use crate::state::{Competition, Key, Outcome, Pool};
use crate::token::{mint_to, Mint, TokenAccount};
use crate::vault::{fee_of, owner_fee};

verus! {

/// The accounts that resolving a competition reads and changes.
#[derive(Clone, Copy, Debug, PartialEq, Eq, Structural)]
pub struct ConcludeCompetitionContext {
    pub competition: Competition,
    /// The fresh account that becomes the competition-share mint.
    pub players_lp_mint: Mint,
    /// The owner's fresh holding of competition shares.
    pub owner_players_lp_account: TokenAccount,
    pub pool_a: Pool,
    pub pool_a_lp_mint: Mint,
    pub pool_b: Pool,
    pub pool_b_lp_mint: Mint,
    pub owner: Key,
}

impl ConcludeCompetitionContext {
    /// The caller owns the competition, and the pools and mints are its own.
    pub open spec fn wired(&self) -> bool {
        &&& self.owner == self.competition.owner
        &&& self.competition.pool_a == self.pool_a.key
        &&& self.competition.pool_b == self.pool_b.key
        &&& self.pool_a_lp_mint.key == self.pool_a.lp_mint
        &&& self.pool_b_lp_mint.key == self.pool_b.lp_mint
    }

    /// Tests `wired`.
    pub fn is_wired(&self) -> (r: bool)
        ensures
            r == self.wired(),
    {
        self.owner == self.competition.owner && self.competition.pool_a == self.pool_a.key
            && self.competition.pool_b == self.pool_b.key && self.pool_a_lp_mint.key
            == self.pool_a.lp_mint && self.pool_b_lp_mint.key == self.pool_b.lp_mint
    }
}

/// Why resolving is refused, if it is.
pub open spec fn conclude_error(c: ConcludeCompetitionContext) -> Option<IntraverseErrorCode> {
    if c.competition.outcome != Outcome::Undecided {
        Some(IntraverseErrorCode::AlreadyResolved)
    } else {
        None
    }
}

/// The accounts once the winner is declared: the outcome set, a share mint
/// with the winning claim token's decimals, and the owner's fee minted.
pub open spec fn concluded(c: ConcludeCompetitionContext, is_a_winner: bool) -> ConcludeCompetitionContext {
    let share_key = c.players_lp_mint.key;
    let winner_mint = if is_a_winner { c.pool_a_lp_mint } else { c.pool_b_lp_mint };
    let loser_mint = if is_a_winner { c.pool_b_lp_mint } else { c.pool_a_lp_mint };
    let fee = fee_of(loser_mint.supply as nat) as u64;
    ConcludeCompetitionContext {
        competition: Competition {
            outcome: if is_a_winner { Outcome::AWins } else { Outcome::BWins },
            players_lp_mint: Some(share_key),
            ..c.competition
        },
        players_lp_mint: Mint {
            key: share_key,
            supply: fee,
            decimals: winner_mint.decimals,
            authority: c.owner,
        },
        owner_players_lp_account: TokenAccount { mint: share_key, owner: c.owner, amount: fee },
        ..c
    }
}

/// Declares the winner, opens the competition-share mint and mints the
/// owner's fee: one ninth of the losing pool's claim-token supply.
pub fn handler(ctx: &mut ConcludeCompetitionContext, is_a_winner: bool) -> (r: Result<(), IntraverseErrorCode>)
    requires
        old(ctx).wired(),
    ensures
        match conclude_error(*old(ctx)) {
            Some(e) => r == Err::<(), IntraverseErrorCode>(e) && *final(ctx) == *old(ctx),
            None => r == Ok::<(), IntraverseErrorCode>(()) && *final(ctx) == concluded(
                *old(ctx),
                is_a_winner,
            ),
        },
        final(ctx).wired(),
{
    if !ctx.competition.is_open() {
        return Err(IntraverseErrorCode::AlreadyResolved);
    }
    ctx.competition.outcome = if is_a_winner {
        Outcome::AWins
    } else {
        Outcome::BWins
    };
    let share_key = ctx.players_lp_mint.key;
    ctx.competition.players_lp_mint = Some(share_key);

    // the share token takes the winning claim token's decimals
    let decimals = if is_a_winner {
        ctx.pool_a_lp_mint.decimals
    } else {
        ctx.pool_b_lp_mint.decimals
    };
    ctx.players_lp_mint = Mint { key: share_key, supply: 0, decimals, authority: ctx.owner };
    ctx.owner_players_lp_account = TokenAccount { mint: share_key, owner: ctx.owner, amount: 0 };

    let losing_supply = if is_a_winner {
        ctx.pool_b_lp_mint.supply
    } else {
        ctx.pool_a_lp_mint.supply
    };
    let amount = owner_fee(losing_supply);
    mint_to(&mut ctx.players_lp_mint, &mut ctx.owner_players_lp_account, amount);
    Ok(())
}

/// Resolution is one-shot: once a competition is resolved, resolving it again,
/// for either side, is refused with `AlreadyResolved`, and (by `handler`'s
/// contract) changes nothing, so the fee is never minted twice.
pub proof fn lemma_resolution_one_shot(c: ConcludeCompetitionContext, first: bool, second: bool)
    requires
        c.wired(),
        conclude_error(c) is None,
    ensures
        concluded(c, first).wired(),
        conclude_error(concluded(c, first)) == Some(IntraverseErrorCode::AlreadyResolved),
{
}

} // verus!
