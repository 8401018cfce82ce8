use vstd::prelude::*;

use crate::errors::IntraverseErrorCode;
use crate::state::{Competition, Key, Outcome, Pool};
use crate::token::{burn, transfer, with_amount, with_supply, Mint, TokenAccount};
use crate::vault::{lemma_redeem_bounded, redeem_amount, redemption_amount};

verus! {

/// One pool's side of a claim: the pool, its claim-token mint and treasury,
/// and the caller's holdings of its base asset and of its claim token.
#[derive(Clone, Copy, Debug, PartialEq, Eq, Structural)]
pub struct PoolAccounts {
    pub pool: Pool,
    pub lp_mint: Mint,
    pub treasury: TokenAccount,
    pub user_account: TokenAccount,
    pub user_lp_account: TokenAccount,
}

impl PoolAccounts {
    /// The accounts belong to the pool, and the balances are ones that a
    /// token ledger can hold: a holding never exceeds its mint's supply, and
    /// two holdings of one asset never add up past the largest `u64`.
    pub open spec fn wired(&self) -> bool {
        &&& self.lp_mint.key == self.pool.lp_mint
        &&& self.treasury.mint == self.pool.mint
        &&& self.user_account.mint == self.pool.mint
        &&& self.user_lp_account.mint == self.pool.lp_mint
        &&& self.user_lp_account.amount <= self.lp_mint.supply
        &&& self.user_account.amount + self.treasury.amount <= u64::MAX
    }

    /// Tests `wired`.
    pub fn is_wired(&self) -> (r: bool)
        ensures
            r == self.wired(),
    {
        self.lp_mint.key == self.pool.lp_mint && self.treasury.mint == self.pool.mint
            && self.user_account.mint == self.pool.mint && self.user_lp_account.mint
            == self.pool.lp_mint && self.user_lp_account.amount <= self.lp_mint.supply
            && self.user_account.amount <= u64::MAX - self.treasury.amount
    }
}

/// The accounts that a claim on a resolved competition reads and changes.
#[derive(Clone, Copy, Debug, PartialEq, Eq, Structural)]
pub struct ClaimCompetitionContext {
    pub competition: Competition,
    /// The competition-share mint.
    pub players_lp_mint: Mint,
    /// The caller's competition-share holding.
    pub players_lp_user_account: TokenAccount,
    pub pool_a: PoolAccounts,
    pub pool_b: PoolAccounts,
    pub signer: Key,
}

impl ClaimCompetitionContext {
    /// The accounts are those of the competition's two pools and share mint.
    pub open spec fn wired(&self) -> bool {
        &&& self.competition.pool_a == self.pool_a.pool.key
        &&& self.competition.pool_b == self.pool_b.pool.key
        &&& self.competition.outcome != Outcome::Undecided ==> self.competition.players_lp_mint
            == Some(self.players_lp_mint.key)
        &&& self.players_lp_user_account.mint == self.players_lp_mint.key
        &&& self.players_lp_user_account.amount <= self.players_lp_mint.supply
        &&& self.pool_a.wired()
        &&& self.pool_b.wired()
    }

    /// Tests `wired`.
    pub fn is_wired(&self) -> (r: bool)
        ensures
            r == self.wired(),
    {
        let share_mint_set = match self.competition.outcome {
            Outcome::Undecided => true,
            _ => match self.competition.players_lp_mint {
                Some(k) => k == self.players_lp_mint.key,
                None => false,
            },
        };
        self.competition.pool_a == self.pool_a.pool.key && self.competition.pool_b
            == self.pool_b.pool.key && share_mint_set && self.players_lp_user_account.mint
            == self.players_lp_mint.key && self.players_lp_user_account.amount
            <= self.players_lp_mint.supply && self.pool_a.is_wired() && self.pool_b.is_wired()
    }
}

/// `amount` of the pool's base asset moved from its treasury to the caller.
pub open spec fn paid_out(p: PoolAccounts, amount: nat) -> PoolAccounts {
    PoolAccounts {
        treasury: with_amount(p.treasury, p.treasury.amount - amount),
        user_account: with_amount(p.user_account, p.user_account.amount + amount),
        ..p
    }
}

/// The caller's whole claim-token holding of the pool burned.
pub open spec fn lp_burned(p: PoolAccounts) -> PoolAccounts {
    PoolAccounts {
        lp_mint: with_supply(p.lp_mint, p.lp_mint.supply - p.user_lp_account.amount),
        user_lp_account: with_amount(p.user_lp_account, 0),
        ..p
    }
}

/// What is paid for the caller's whole holding of `mint`'s tokens, drawn on
/// `treasury` in proportion to the mint's supply.
pub open spec fn share_of(holding: TokenAccount, treasury: TokenAccount, mint: Mint) -> nat {
    redeem_amount(holding.amount as nat, treasury.amount as nat, mint.supply as nat)
}

/// The losing side after its two redemptions: first the caller's competition
/// shares, against the share supply; then the caller's own claim tokens.
pub open spec fn loser_settled(share: TokenAccount, share_mint: Mint, lose: PoolAccounts) -> PoolAccounts {
    let l1 = paid_out(lose, share_of(share, lose.treasury, share_mint));
    paid_out(lp_burned(l1), share_of(l1.user_lp_account, l1.treasury, l1.lp_mint))
}

/// The winning side after the caller's claim tokens are redeemed for their
/// share of its treasury.
pub open spec fn winner_settled(win: PoolAccounts) -> PoolAccounts {
    paid_out(lp_burned(win), share_of(win.user_lp_account, win.treasury, win.lp_mint))
}

/// The losing side after the winner's prize: the same fraction of what is
/// left of the losing treasury as of the winning supply that the caller held.
pub open spec fn prize_paid(win: PoolAccounts, lose: PoolAccounts) -> PoolAccounts {
    paid_out(lose, share_of(win.user_lp_account, lose.treasury, win.lp_mint))
}

/// The claim of a resolved competition: all three redemptions, in order.
pub open spec fn claimed(c: ClaimCompetitionContext) -> ClaimCompetitionContext {
    let share_mint = with_supply(
        c.players_lp_mint,
        c.players_lp_mint.supply - c.players_lp_user_account.amount,
    );
    let share = with_amount(c.players_lp_user_account, 0);
    match c.competition.outcome {
        Outcome::AWins => {
            let lose = loser_settled(c.players_lp_user_account, c.players_lp_mint, c.pool_b);
            ClaimCompetitionContext {
                players_lp_mint: share_mint,
                players_lp_user_account: share,
                pool_a: winner_settled(c.pool_a),
                pool_b: prize_paid(c.pool_a, lose),
                ..c
            }
        },
        Outcome::BWins => {
            let lose = loser_settled(c.players_lp_user_account, c.players_lp_mint, c.pool_a);
            ClaimCompetitionContext {
                players_lp_mint: share_mint,
                players_lp_user_account: share,
                pool_a: prize_paid(c.pool_b, lose),
                pool_b: winner_settled(c.pool_b),
                ..c
            }
        },
        Outcome::Undecided => c,
    }
}

/// Why a claim is refused, if it is.
pub open spec fn claim_error(c: ClaimCompetitionContext) -> Option<IntraverseErrorCode> {
    if c.competition.outcome == Outcome::Undecided {
        Some(IntraverseErrorCode::CompetitionIsOpen)
    } else {
        None
    }
}

/// Pays `amount` of the pool's base asset from its treasury to the caller.
fn pay_out(p: &mut PoolAccounts, amount: u64)
    requires
        old(p).wired(),
        amount <= old(p).treasury.amount,
    ensures
        *final(p) == paid_out(*old(p), amount as nat),
        final(p).wired(),
{
    transfer(&mut p.treasury, &mut p.user_account, amount);
}

/// Burns the caller's whole claim-token holding of the pool.
fn burn_holding(p: &mut PoolAccounts)
    requires
        old(p).wired(),
    ensures
        *final(p) == lp_burned(*old(p)),
        final(p).wired(),
{
    let held = p.user_lp_account.amount;
    burn(&mut p.lp_mint, &mut p.user_lp_account, held);
}

/// Redeems the caller's competition shares against the losing treasury, then
/// the caller's claim tokens of each side.
fn settle(
    share_mint: &mut Mint,
    share: &mut TokenAccount,
    win: &mut PoolAccounts,
    lose: &mut PoolAccounts,
)
    requires
        old(share).mint == old(share_mint).key,
        old(share).amount <= old(share_mint).supply,
        old(win).wired(),
        old(lose).wired(),
    ensures
        *final(share_mint) == with_supply(
            *old(share_mint),
            old(share_mint).supply - old(share).amount,
        ),
        *final(share) == with_amount(*old(share), 0),
        *final(win) == winner_settled(*old(win)),
        *final(lose) == prize_paid(
            *old(win),
            loser_settled(*old(share), *old(share_mint), *old(lose)),
        ),
        final(win).wired(),
        final(lose).wired(),
{
    // competition shares: a claim on the losing treasury
    let held = share.amount;
    let amount = redemption_amount(held, lose.treasury.amount, share_mint.supply);
    burn(share_mint, share, held);
    pay_out(lose, amount);

    // the caller's stake on the losing side
    let held = lose.user_lp_account.amount;
    let amount = redemption_amount(held, lose.treasury.amount, lose.lp_mint.supply);
    burn_holding(lose);
    pay_out(lose, amount);

    // the caller's stake on the winning side, and the prize
    let held = win.user_lp_account.amount;
    let own = redemption_amount(held, win.treasury.amount, win.lp_mint.supply);
    let prize = redemption_amount(held, lose.treasury.amount, win.lp_mint.supply);
    burn_holding(win);
    pay_out(win, own);
    pay_out(lose, prize);
}

/// Redeems everything the caller holds in a resolved competition.
pub fn handler(ctx: &mut ClaimCompetitionContext) -> (r: Result<(), IntraverseErrorCode>)
    requires
        old(ctx).wired(),
    ensures
        match claim_error(*old(ctx)) {
            Some(e) => r == Err::<(), IntraverseErrorCode>(e) && *final(ctx) == *old(ctx),
            None => r == Ok::<(), IntraverseErrorCode>(()) && *final(ctx) == claimed(*old(ctx)),
        },
        final(ctx).wired(),
{
    if ctx.competition.is_open() {
        return Err(IntraverseErrorCode::CompetitionIsOpen);
    }
    match ctx.competition.outcome {
        Outcome::AWins => settle(
            &mut ctx.players_lp_mint,
            &mut ctx.players_lp_user_account,
            &mut ctx.pool_a,
            &mut ctx.pool_b,
        ),
        _ => settle(
            &mut ctx.players_lp_mint,
            &mut ctx.players_lp_user_account,
            &mut ctx.pool_b,
            &mut ctx.pool_a,
        ),
    }
    Ok(())
}

/// What leaves a treasury in a claim reaches the caller's holding of that
/// asset, and never more than the treasury held.
pub open spec fn drawn_within(before: PoolAccounts, after: PoolAccounts) -> bool {
    &&& after.treasury.amount <= before.treasury.amount
    &&& after.treasury.amount + after.user_account.amount == before.treasury.amount
        + before.user_account.amount
}

proof fn lemma_paid_out_within(p: PoolAccounts, amount: nat)
    requires
        p.wired(),
        amount <= p.treasury.amount,
    ensures
        paid_out(p, amount).wired(),
        drawn_within(p, paid_out(p, amount)),
{
}

proof fn lemma_settle_within(share: TokenAccount, share_mint: Mint, win: PoolAccounts, lose: PoolAccounts)
    requires
        share.amount <= share_mint.supply,
        win.wired(),
        lose.wired(),
    ensures
        drawn_within(win, winner_settled(win)),
        drawn_within(lose, prize_paid(win, loser_settled(share, share_mint, lose))),
{
    lemma_redeem_bounded(share.amount as nat, lose.treasury.amount as nat, share_mint.supply as nat);
    let l1 = paid_out(lose, share_of(share, lose.treasury, share_mint));
    lemma_paid_out_within(lose, share_of(share, lose.treasury, share_mint));
    lemma_redeem_bounded(
        l1.user_lp_account.amount as nat,
        l1.treasury.amount as nat,
        l1.lp_mint.supply as nat,
    );
    let l2 = loser_settled(share, share_mint, lose);
    lemma_paid_out_within(lp_burned(l1), share_of(l1.user_lp_account, l1.treasury, l1.lp_mint));
    lemma_redeem_bounded(
        win.user_lp_account.amount as nat,
        win.treasury.amount as nat,
        win.lp_mint.supply as nat,
    );
    lemma_redeem_bounded(
        win.user_lp_account.amount as nat,
        l2.treasury.amount as nat,
        win.lp_mint.supply as nat,
    );
    lemma_paid_out_within(l2, share_of(win.user_lp_account, l2.treasury, win.lp_mint));
}

/// No overdraw: in a claim, every redemption draws on its treasury for at most
/// what it holds, and all that leaves each treasury reaches the caller.
pub proof fn lemma_claim_within_treasuries(c: ClaimCompetitionContext)
    requires
        c.wired(),
    ensures
        drawn_within(c.pool_a, claimed(c).pool_a),
        drawn_within(c.pool_b, claimed(c).pool_b),
{
    match c.competition.outcome {
        Outcome::AWins => lemma_settle_within(
            c.players_lp_user_account,
            c.players_lp_mint,
            c.pool_a,
            c.pool_b,
        ),
        Outcome::BWins => lemma_settle_within(
            c.players_lp_user_account,
            c.players_lp_mint,
            c.pool_b,
            c.pool_a,
        ),
        Outcome::Undecided => {},
    }
}

/// Idempotent claim: once a claim has gone through, the same claim again on
/// the accounts it left changes nothing.
pub proof fn lemma_claim_idempotent(c: ClaimCompetitionContext)
    requires
        c.wired(),
        claim_error(c) is None,
    ensures
        claim_error(claimed(c)) is None,
        claimed(claimed(c)) == claimed(c),
{
    let d = claimed(c);
    assert(d.players_lp_user_account.amount == 0);
    assert(d.pool_a.user_lp_account.amount == 0);
    assert(d.pool_b.user_lp_account.amount == 0);
}

} // verus!
