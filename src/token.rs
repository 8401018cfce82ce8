use vstd::prelude::*;

use crate::state::Key;

verus! {

/// A fungible-token mint: its identity, total supply and decimals.
#[derive(Clone, Copy, Debug, PartialEq, Eq, Structural)]
pub struct Mint {
    pub key: Key,
    pub supply: u64,
    pub decimals: u8,
    pub authority: Key,
}

/// A holding of one mint's tokens by one owner.
#[derive(Clone, Copy, Debug, PartialEq, Eq, Structural)]
pub struct TokenAccount {
    pub mint: Key,
    pub owner: Key,
    pub amount: u64,
}

/// `acc` with its amount replaced.
pub open spec fn with_amount(acc: TokenAccount, amount: int) -> TokenAccount {
    TokenAccount { amount: amount as u64, ..acc }
}

/// `m` with its supply replaced.
pub open spec fn with_supply(m: Mint, supply: int) -> Mint {
    Mint { supply: supply as u64, ..m }
}

/// Moves `amount` tokens from `from` to `to`, two holdings of one mint.
pub fn transfer(from: &mut TokenAccount, to: &mut TokenAccount, amount: u64)
    requires
        old(from).mint == old(to).mint,
        amount <= old(from).amount,
        old(to).amount + amount <= u64::MAX,
    ensures
        *final(from) == with_amount(*old(from), old(from).amount - amount),
        *final(to) == with_amount(*old(to), old(to).amount + amount),
{
    from.amount = from.amount - amount;
    to.amount = to.amount + amount;
}

/// Creates `amount` new tokens of `mint` in `to`.
pub fn mint_to(mint: &mut Mint, to: &mut TokenAccount, amount: u64)
    requires
        old(to).mint == old(mint).key,
        old(mint).supply + amount <= u64::MAX,
        old(to).amount <= old(mint).supply,
    ensures
        *final(mint) == with_supply(*old(mint), old(mint).supply + amount),
        *final(to) == with_amount(*old(to), old(to).amount + amount),
{
    mint.supply = mint.supply + amount;
    to.amount = to.amount + amount;
}

/// Destroys `amount` tokens of `mint` held in `from`.
pub fn burn(mint: &mut Mint, from: &mut TokenAccount, amount: u64)
    requires
        old(from).mint == old(mint).key,
        amount <= old(from).amount,
        old(from).amount <= old(mint).supply,
    ensures
        *final(mint) == with_supply(*old(mint), old(mint).supply - amount),
        *final(from) == with_amount(*old(from), old(from).amount - amount),
{
    mint.supply = mint.supply - amount;
    from.amount = from.amount - amount;
}

} // verus!
