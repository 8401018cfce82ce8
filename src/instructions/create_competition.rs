use vstd::prelude::*;

use crate::errors::IntraverseErrorCode;
use crate::state::{Competition, Key, Outcome, Pool};
use crate::token::Mint;

verus! {

/// The accounts that pairing two pools reads and changes.
#[derive(Clone, Copy, Debug, PartialEq, Eq, Structural)]
pub struct CreateCompetitionContext {
    pub pool_a: Pool,
    pub pool_a_lp_mint: Mint,
    pub pool_b: Pool,
    pub pool_b_lp_mint: Mint,
    /// The fresh competition record.
    pub competition: Competition,
    pub owner: Key,
}

impl CreateCompetitionContext {
    /// The caller owns the first pool; the two pools are distinct, and the
    /// mints are theirs.
    pub open spec fn wired(&self) -> bool {
        &&& self.owner == self.pool_a.owner
        &&& self.pool_a.key != self.pool_b.key
        &&& self.pool_a_lp_mint.key == self.pool_a.lp_mint
        &&& self.pool_b_lp_mint.key == self.pool_b.lp_mint
    }

    /// Tests `wired`.
    pub fn is_wired(&self) -> (r: bool)
        ensures
            r == self.wired(),
    {
        self.owner == self.pool_a.owner && self.pool_a.key != self.pool_b.key
            && self.pool_a_lp_mint.key == self.pool_a.lp_mint && self.pool_b_lp_mint.key
            == self.pool_b.lp_mint
    }
}

/// Why pairing the two pools is refused, if it is.
pub open spec fn create_error(c: CreateCompetitionContext) -> Option<IntraverseErrorCode> {
    if c.pool_a.owner != c.pool_b.owner {
        Some(IntraverseErrorCode::PoolAuthoritiesMismatch)
    } else if !c.pool_a.is_open || !c.pool_b.is_open {
        Some(IntraverseErrorCode::PoolIsClosed)
    } else if c.pool_a_lp_mint.supply < c.pool_a.activation_th || c.pool_b_lp_mint.supply
        < c.pool_b.activation_th {
        Some(IntraverseErrorCode::ActivationThresholdNotMet)
    } else {
        None
    }
}

/// The accounts once paired: both pools closed, and an undecided competition
/// between them, owned by their owner.
pub open spec fn created(c: CreateCompetitionContext) -> CreateCompetitionContext {
    CreateCompetitionContext {
        pool_a: Pool { is_open: false, ..c.pool_a },
        pool_b: Pool { is_open: false, ..c.pool_b },
        competition: Competition {
            pool_a: c.pool_a.key,
            pool_b: c.pool_b.key,
            outcome: Outcome::Undecided,
            owner: c.pool_a.owner,
            players_lp_mint: None,
        },
        ..c
    }
}

/// Pairs two open pools of one owner, each with a claim-token supply at
/// least its threshold, into a competition, and closes both.
pub fn handler(ctx: &mut CreateCompetitionContext) -> (r: Result<(), IntraverseErrorCode>)
    requires
        old(ctx).wired(),
    ensures
        match create_error(*old(ctx)) {
            Some(e) => r == Err::<(), IntraverseErrorCode>(e) && *final(ctx) == *old(ctx),
            None => r == Ok::<(), IntraverseErrorCode>(()) && *final(ctx) == created(*old(ctx)),
        },
{
    if ctx.pool_a.owner != ctx.pool_b.owner {
        return Err(IntraverseErrorCode::PoolAuthoritiesMismatch);
    }
    if !ctx.pool_a.is_open || !ctx.pool_b.is_open {
        return Err(IntraverseErrorCode::PoolIsClosed);
    }
    if ctx.pool_a_lp_mint.supply < ctx.pool_a.activation_th
        || ctx.pool_b_lp_mint.supply < ctx.pool_b.activation_th {
        return Err(IntraverseErrorCode::ActivationThresholdNotMet);
    }
    ctx.pool_a.is_open = false;
    ctx.pool_b.is_open = false;
    ctx.competition = Competition {
        pool_a: ctx.pool_a.key,
        pool_b: ctx.pool_b.key,
        outcome: Outcome::Undecided,
        owner: ctx.pool_a.owner,
        players_lp_mint: None,
    };
    Ok(())
}

} // verus!
