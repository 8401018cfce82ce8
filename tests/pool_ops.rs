use intraverse_memefight::errors::IntraverseErrorCode;
use intraverse_memefight::instructions::deposit::DepositPoolContext;
use intraverse_memefight::instructions::initialize_pool::InitializePoolContext;
use intraverse_memefight::instructions::toggle_pool::TogglePoolContext;
use intraverse_memefight::instructions::update_pool::{handler as update_pool, UpdatePoolArgs, UpdatePoolContext};
use intraverse_memefight::instructions::withdraw::WithdrawPoolContext;
use intraverse_memefight::state::{Key, Pool};
use intraverse_memefight::token::{Mint, TokenAccount};
use intraverse_memefight::{deposit, initialize_pool, toggle_pool, withdraw};

const POOL: Key = Key { hi: 0, lo: 1 };
const ASSET: Key = Key { hi: 0, lo: 2 };
const LP: Key = Key { hi: 0, lo: 3 };
const OWNER: Key = Key { hi: 0, lo: 4 };
const POOL_AUTHORITY: Key = Key { hi: 0, lo: 5 };
const USER: Key = Key { hi: 0, lo: 9 };

fn open_pool() -> Pool {
    Pool { key: POOL, mint: ASSET, lp_mint: LP, owner: OWNER, activation_th: 100, is_open: true }
}

fn deposit_ctx(asset_held: u64, lp_held: u64, supply: u64, treasury: u64) -> DepositPoolContext {
    DepositPoolContext {
        pool_lp_mint: Mint { key: LP, supply, decimals: 6, authority: POOL_AUTHORITY },
        pool_treasury: TokenAccount { mint: ASSET, owner: POOL_AUTHORITY, amount: treasury },
        user_token_account: TokenAccount { mint: ASSET, owner: USER, amount: asset_held },
        user_lp_token_account: TokenAccount { mint: LP, owner: USER, amount: lp_held },
        pool: open_pool(),
        authority: USER,
    }
}

fn withdraw_ctx(d: &DepositPoolContext) -> WithdrawPoolContext {
    WithdrawPoolContext {
        pool_lp_mint: d.pool_lp_mint,
        pool_treasury: d.pool_treasury,
        user_token_account: d.user_token_account,
        user_lp_token_account: d.user_lp_token_account,
        pool: d.pool,
        signer: d.authority,
    }
}

#[test]
fn deposit_then_withdraw_moves_in_lockstep() {
    let mut d = deposit_ctx(100, 0, 0, 0);
    assert_eq!(deposit(&mut d, 30), Ok(()));
    assert_eq!(d.user_lp_token_account.amount, 30);
    assert_eq!(d.pool_lp_mint.supply, 30);
    assert_eq!(d.pool_treasury.amount, 30);
    assert_eq!(d.user_token_account.amount, 70);

    let mut w = withdraw_ctx(&d);
    assert_eq!(withdraw(&mut w, 10), Ok(()));
    assert_eq!(w.pool_treasury.amount, 20);
    assert_eq!(w.pool_lp_mint.supply, 20);
    assert_eq!(w.user_lp_token_account.amount, 20);
    assert_eq!(w.user_token_account.amount, 80);
}

#[test]
fn conservation_over_two_depositors() {
    // two depositors share one pool; their claim balances always add up to
    // the supply, which equals the treasury
    let mut first = deposit_ctx(500, 0, 0, 0);
    assert_eq!(deposit(&mut first, 120), Ok(()));
    let mut second = deposit_ctx(300, 0, first.pool_lp_mint.supply, first.pool_treasury.amount);
    assert_eq!(deposit(&mut second, 75), Ok(()));
    let mut w = withdraw_ctx(&first);
    w.pool_lp_mint = second.pool_lp_mint;
    w.pool_treasury = second.pool_treasury;
    assert_eq!(withdraw(&mut w, 45), Ok(()));
    let held = w.user_lp_token_account.amount + second.user_lp_token_account.amount;
    assert_eq!(held, 150);
    assert_eq!(w.pool_lp_mint.supply, 150);
    assert_eq!(w.pool_treasury.amount, 150);
}

#[test]
fn deposit_into_closed_pool_is_refused() {
    let mut d = deposit_ctx(100, 0, 0, 0);
    d.pool.is_open = false;
    let before = d;
    assert_eq!(deposit(&mut d, 30), Err(IntraverseErrorCode::PoolIsClosed));
    assert_eq!(d, before);
}

#[test]
fn deposit_beyond_holding_is_refused() {
    let mut d = deposit_ctx(20, 0, 0, 0);
    let before = d;
    assert_eq!(deposit(&mut d, 30), Err(IntraverseErrorCode::InsufficientFunds));
    assert_eq!(d, before);
}

#[test]
fn deposit_past_largest_supply_is_refused() {
    let mut d = deposit_ctx(10, 0, u64::MAX - 5, 0);
    let before = d;
    assert_eq!(deposit(&mut d, 10), Err(IntraverseErrorCode::ArithmeticOverflow));
    assert_eq!(d, before);
}

#[test]
fn deposit_of_zero_changes_nothing() {
    let mut d = deposit_ctx(10, 4, 4, 4);
    let before = d;
    assert_eq!(deposit(&mut d, 0), Ok(()));
    assert_eq!(d, before);
}

#[test]
fn withdraw_from_closed_pool_is_refused() {
    let mut w = withdraw_ctx(&deposit_ctx(0, 30, 30, 30));
    w.pool.is_open = false;
    let before = w;
    assert_eq!(withdraw(&mut w, 10), Err(IntraverseErrorCode::PoolIsClosed));
    assert_eq!(w, before);
}

#[test]
fn withdraw_beyond_claim_balance_is_refused() {
    let mut w = withdraw_ctx(&deposit_ctx(0, 30, 60, 60));
    let before = w;
    assert_eq!(withdraw(&mut w, 31), Err(IntraverseErrorCode::LpBalanceInsufficient));
    assert_eq!(w, before);
}

#[test]
fn withdraw_beyond_treasury_is_refused() {
    let mut w = withdraw_ctx(&deposit_ctx(0, 30, 30, 10));
    let before = w;
    assert_eq!(withdraw(&mut w, 20), Err(IntraverseErrorCode::InsufficientFunds));
    assert_eq!(w, before);
}

#[test]
fn initialize_pool_opens_an_empty_pool() {
    let mut c = InitializePoolContext {
        pool_mint: Mint { key: ASSET, supply: 1000, decimals: 9, authority: Key { hi: 0, lo: 77 } },
        pool_lp_mint: Mint { key: LP, supply: 0, decimals: 0, authority: Key { hi: 0, lo: 0 } },
        pool_treasury: TokenAccount { mint: Key { hi: 0, lo: 0 }, owner: Key { hi: 0, lo: 0 }, amount: 0 },
        pool: Pool {
            key: POOL,
            mint: Key { hi: 0, lo: 0 },
            lp_mint: Key { hi: 0, lo: 0 },
            owner: Key { hi: 0, lo: 0 },
            activation_th: 0,
            is_open: false,
        },
        pool_authority: POOL_AUTHORITY,
        authority: OWNER,
    };
    assert_eq!(initialize_pool(&mut c, 250), Ok(()));
    assert_eq!(
        c.pool,
        Pool { key: POOL, mint: ASSET, lp_mint: LP, owner: OWNER, activation_th: 250, is_open: true }
    );
    assert_eq!(c.pool_lp_mint, Mint { key: LP, supply: 0, decimals: 9, authority: POOL_AUTHORITY });
    assert_eq!(c.pool_treasury, TokenAccount { mint: ASSET, owner: POOL_AUTHORITY, amount: 0 });
}

#[test]
fn toggle_pool_flips_open_flag() {
    let mut c = TogglePoolContext { pool: open_pool(), authority: OWNER };
    assert_eq!(toggle_pool(&mut c), Ok(()));
    assert!(!c.pool.is_open);
    assert_eq!(toggle_pool(&mut c), Ok(()));
    assert_eq!(c.pool, open_pool());
}

#[test]
fn update_pool_overwrites_settings() {
    let mut c = UpdatePoolContext { pool: open_pool(), owner: OWNER };
    let args = UpdatePoolArgs { activation_th: 5000, is_open: false };
    assert_eq!(update_pool(&mut c, args), Ok(()));
    assert_eq!(c.pool.activation_th, 5000);
    assert!(!c.pool.is_open);
    assert_eq!(c.pool.lp_mint, LP);
}

#[test]
fn deposit_accounts_wiring_is_tested() {
    assert!(deposit_ctx(100, 5, 5, 5).is_wired());
    // a holding larger than its mint's supply
    assert!(!deposit_ctx(100, 6, 5, 5).is_wired());
    // two holdings of one asset past the largest u64
    assert!(!deposit_ctx(u64::MAX, 0, 0, 1).is_wired());
    let mut d = deposit_ctx(100, 5, 5, 5);
    d.pool_treasury.mint = LP;
    assert!(!d.is_wired());
    let mut w = withdraw_ctx(&deposit_ctx(100, 5, 5, 5));
    assert!(w.is_wired());
    w.pool_lp_mint.key = ASSET;
    assert!(!w.is_wired());
}
