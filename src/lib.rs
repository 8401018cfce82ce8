pub mod errors;
pub mod instructions;
pub mod state;
pub mod token;
pub mod vault;

use vstd::prelude::*;

use crate::errors::IntraverseErrorCode;
use crate::instructions::claim_competition::{claim_error, claimed, ClaimCompetitionContext};
use crate::instructions::conclude_competition::{
    conclude_error,
    concluded,
    ConcludeCompetitionContext,
};
use crate::instructions::create_competition::{create_error, created, CreateCompetitionContext};
use crate::instructions::deposit::{deposit_error, deposited, DepositPoolContext};
use crate::instructions::initialize_pool::{initialized, InitializePoolContext};
use crate::instructions::reset_competition::{
    competition_reset,
    reset_error,
    ResetCompetitionContext,
};
use crate::instructions::toggle_pool::TogglePoolContext;
use crate::instructions::withdraw::{withdraw_error, withdrawn, WithdrawPoolContext};
use crate::state::Pool;

verus! {

/// Opens a new pool; see `instructions::initialize_pool::handler`.
pub fn initialize_pool(ctx: &mut InitializePoolContext, activation_th: u64) -> (r: Result<(), IntraverseErrorCode>)
    ensures
        r == Ok::<(), IntraverseErrorCode>(()),
        *final(ctx) == initialized(*old(ctx), activation_th),
{
    instructions::initialize_pool::handler(ctx, activation_th)
}

/// Opens or closes a pool; see `instructions::toggle_pool::handler`.
pub fn toggle_pool(ctx: &mut TogglePoolContext) -> (r: Result<(), IntraverseErrorCode>)
    requires
        old(ctx).authority == old(ctx).pool.owner,
    ensures
        r == Ok::<(), IntraverseErrorCode>(()),
        *final(ctx) == (TogglePoolContext {
            pool: Pool { is_open: !old(ctx).pool.is_open, ..old(ctx).pool },
            ..*old(ctx)
        }),
{
    instructions::toggle_pool::handler(ctx)
}

/// Deposits into an open pool; see `instructions::deposit::handler`.
pub fn deposit(ctx: &mut DepositPoolContext, amount: u64) -> (r: Result<(), IntraverseErrorCode>)
    requires
        old(ctx).wired(),
    ensures
        match deposit_error(*old(ctx), amount) {
            Some(e) => r == Err::<(), IntraverseErrorCode>(e) && *final(ctx) == *old(ctx),
            None => r == Ok::<(), IntraverseErrorCode>(()) && *final(ctx) == deposited(
                *old(ctx),
                amount,
            ),
        },
        final(ctx).wired(),
{
    instructions::deposit::handler(ctx, amount)
}

/// Withdraws from an open pool; see `instructions::withdraw::handler`.
pub fn withdraw(ctx: &mut WithdrawPoolContext, amount: u64) -> (r: Result<(), IntraverseErrorCode>)
    requires
        old(ctx).wired(),
    ensures
        match withdraw_error(*old(ctx), amount) {
            Some(e) => r == Err::<(), IntraverseErrorCode>(e) && *final(ctx) == *old(ctx),
            None => r == Ok::<(), IntraverseErrorCode>(()) && *final(ctx) == withdrawn(
                *old(ctx),
                amount,
            ),
        },
        final(ctx).wired(),
{
    instructions::withdraw::handler(ctx, amount)
}

/// Pairs two pools; see `instructions::create_competition::handler`.
pub fn create_competition(ctx: &mut CreateCompetitionContext) -> (r: Result<(), IntraverseErrorCode>)
    requires
        old(ctx).wired(),
    ensures
        match create_error(*old(ctx)) {
            Some(e) => r == Err::<(), IntraverseErrorCode>(e) && *final(ctx) == *old(ctx),
            None => r == Ok::<(), IntraverseErrorCode>(()) && *final(ctx) == created(*old(ctx)),
        },
{
    instructions::create_competition::handler(ctx)
}

/// Declares the winner; see `instructions::conclude_competition::handler`.
pub fn conclude_competition(ctx: &mut ConcludeCompetitionContext, is_a_winner: bool) -> (r: Result<(), IntraverseErrorCode>)
    requires
        old(ctx).wired(),
    ensures
        match conclude_error(*old(ctx)) {
            Some(e) => r == Err::<(), IntraverseErrorCode>(e) && *final(ctx) == *old(ctx),
            None => r == Ok::<(), IntraverseErrorCode>(()) && *final(ctx) == concluded(
                *old(ctx),
                is_a_winner,
            ),
        },
        final(ctx).wired(),
{
    instructions::conclude_competition::handler(ctx, is_a_winner)
}

/// Redeems the caller's holdings; see `instructions::claim_competition::handler`.
pub fn claim_competition(ctx: &mut ClaimCompetitionContext) -> (r: Result<(), IntraverseErrorCode>)
    requires
        old(ctx).wired(),
    ensures
        match claim_error(*old(ctx)) {
            Some(e) => r == Err::<(), IntraverseErrorCode>(e) && *final(ctx) == *old(ctx),
            None => r == Ok::<(), IntraverseErrorCode>(()) && *final(ctx) == claimed(*old(ctx)),
        },
        final(ctx).wired(),
{
    instructions::claim_competition::handler(ctx)
}

/// Ends a resolved competition; see `instructions::reset_competition::handler`.
pub fn reset_competition(ctx: &mut ResetCompetitionContext) -> (r: Result<(), IntraverseErrorCode>)
    requires
        old(ctx).wired(),
    ensures
        match reset_error(*old(ctx)) {
            Some(e) => r == Err::<(), IntraverseErrorCode>(e) && *final(ctx) == *old(ctx),
            None => r == Ok::<(), IntraverseErrorCode>(()) && *final(ctx) == competition_reset(
                *old(ctx),
            ),
        },
{
    instructions::reset_competition::handler(ctx)
}

} // verus!
