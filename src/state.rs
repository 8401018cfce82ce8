use vstd::prelude::*;

verus! {

/// The 256-bit identity of an account: a pool, a mint, a token account or a
/// signer, as its high and low halves.
#[derive(Clone, Copy, Debug, PartialEq, Eq, Structural)]
pub struct Key {
    pub hi: u128,
    pub lo: u128,
}

/// A liquidity reservoir for one base asset, with its own claim-token mint.
#[derive(Clone, Copy, Debug, PartialEq, Eq, Structural)]
pub struct Pool {
    /// This pool's own identity.
    pub key: Key,
    /// The base asset the pool accepts.
    pub mint: Key,
    /// The claim-token (LP) mint of the pool's current series.
    pub lp_mint: Key,
    /// Who may open, close and pair the pool.
    pub owner: Key,
    /// Least claim-token supply with which the pool may enter a competition.
    pub activation_th: u64,
    /// Deposits and withdrawals are accepted only while this holds.
    pub is_open: bool,
}

/// How a competition stands: undecided, or won by one of its two pools.
#[derive(Clone, Copy, Debug, PartialEq, Eq, Structural)]
pub enum Outcome {
    Undecided,
    AWins,
    BWins,
}

/// A contest between two pools of one owner.
#[derive(Clone, Copy, Debug, PartialEq, Eq, Structural)]
pub struct Competition {
    pub pool_a: Key,
    pub pool_b: Key,
    pub outcome: Outcome,
    pub owner: Key,
    /// The competition-share mint, set when the competition is resolved.
    pub players_lp_mint: Option<Key>,
}

impl Competition {
    /// A competition is open until a winner has been declared.
    pub fn is_open(&self) -> (r: bool)
        ensures
            r == (self.outcome == Outcome::Undecided),
    {
        match self.outcome {
            Outcome::Undecided => true,
            _ => false,
        }
    }
}

} // verus!
