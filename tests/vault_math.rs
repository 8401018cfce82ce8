use intraverse_memefight::state::{Competition, Key, Outcome};
use intraverse_memefight::vault::{owner_fee, redemption_amount};

#[test]
fn redemption_is_pro_rata() {
    assert_eq!(redemption_amount(50, 200, 200), 50);
    assert_eq!(redemption_amount(50, 200, 150), 66);
    assert_eq!(redemption_amount(1, 10, 3), 3);
}

#[test]
fn redemption_of_nothing_is_nothing() {
    assert_eq!(redemption_amount(0, 500, 40), 0);
    assert_eq!(redemption_amount(0, 500, 0), 0);
}

#[test]
fn redemption_of_whole_supply_empties_treasury() {
    assert_eq!(redemption_amount(7, 1234, 7), 1234);
    assert_eq!(redemption_amount(u64::MAX, u64::MAX, u64::MAX), u64::MAX);
    assert_eq!(redemption_amount(u64::MAX - 1, u64::MAX, u64::MAX), u64::MAX - 1);
}

#[test]
fn redemptions_in_turn_never_overdraw() {
    // three holders of 10, 20 and 3 out of 33 redeem one after the other
    let mut treasury: u64 = 100;
    let mut supply: u64 = 33;
    let mut paid: u64 = 0;
    for held in [10u64, 20, 3] {
        let amount = redemption_amount(held, treasury, supply);
        assert!(amount <= treasury);
        treasury -= amount;
        supply -= held;
        paid += amount;
    }
    assert_eq!(paid, 100);
    assert_eq!(treasury, 0);
}

#[test]
fn owner_fee_is_a_ninth_of_losing_supply() {
    assert_eq!(owner_fee(200), 22);
    assert_eq!(owner_fee(150), 16);
    assert_eq!(owner_fee(8), 0);
    assert_eq!(owner_fee(0), 0);
}

#[test]
fn competition_is_open_until_decided() {
    let mut c = Competition {
        pool_a: Key { hi: 0, lo: 1 },
        pool_b: Key { hi: 0, lo: 2 },
        outcome: Outcome::Undecided,
        owner: Key { hi: 0, lo: 3 },
        players_lp_mint: None,
    };
    assert!(c.is_open());
    c.outcome = Outcome::AWins;
    assert!(!c.is_open());
    c.outcome = Outcome::BWins;
    assert!(!c.is_open());
}
