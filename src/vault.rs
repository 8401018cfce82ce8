use vstd::prelude::*;

verus! {

/// Base units released when `balance` claim tokens out of `supply` are redeemed
/// against `treasury`: the holder's exact pro-rata share, rounded down.
pub open spec fn redeem_amount(balance: nat, treasury: nat, supply: nat) -> nat {
    if supply == 0 {
        0
    } else {
        (balance * treasury / supply) as nat
    }
}

/// The owner's fee at resolution: one ninth of the losing pool's claim supply.
pub open spec fn fee_of(losing_supply: nat) -> nat {
    losing_supply / 9
}

/// Redeeming part of the supply never releases more than the treasury holds,
/// and redeeming the whole supply releases all of it.
pub proof fn lemma_redeem_bounded(balance: nat, treasury: nat, supply: nat)
    requires
        balance <= supply,
    ensures
        redeem_amount(balance, treasury, supply) <= treasury,
        balance == supply && supply > 0 ==> redeem_amount(balance, treasury, supply) == treasury,
{
    if supply > 0 {
        assert(balance * treasury <= supply * treasury) by (nonlinear_arith)
            requires
                balance <= supply,
        ;
        assert(balance * treasury / supply <= treasury) by (nonlinear_arith)
            requires
                balance * treasury <= supply * treasury,
                supply > 0,
        ;
        if balance == supply {
            assert(supply * treasury / supply == treasury) by (nonlinear_arith)
                requires
                    supply > 0,
            ;
        }
    }
}

/// Computes `redeem_amount` without overflow.
pub fn redemption_amount(balance: u64, treasury: u64, supply: u64) -> (r: u64)
    requires
        balance <= supply,
    ensures
        r == redeem_amount(balance as nat, treasury as nat, supply as nat),
        r <= treasury,
        balance == supply && supply > 0 ==> r == treasury,
{
    proof {
        lemma_redeem_bounded(balance as nat, treasury as nat, supply as nat);
    }
    if supply == 0 {
        0
    } else {
        let b: u128 = balance as u128;
        let t: u128 = treasury as u128;
        assert(b * t <= u64::MAX * u64::MAX) by (nonlinear_arith)
            requires
                b <= u64::MAX,
                t <= u64::MAX,
        ;
        let product: u128 = b * t;
        (product / (supply as u128)) as u64
    }
}

/// Computes the owner's fee, one ninth of the losing supply rounded down.
pub fn owner_fee(losing_supply: u64) -> (r: u64)
    ensures
        r == fee_of(losing_supply as nat),
{
    losing_supply / 9
}

/// The sum of a sequence of balances.
pub open spec fn sum_of(s: Seq<nat>) -> nat
    decreases s.len(),
{
    if s.len() == 0 {
        0
    } else {
        s[0] + sum_of(s.drop_first())
    }
}

/// Total released when the claims in `claims` are redeemed one after the
/// other, each against the treasury and supply that the earlier ones left.
pub open spec fn total_redeemed(claims: Seq<nat>, treasury: nat, supply: nat) -> nat
    decreases claims.len(),
{
    if claims.len() == 0 {
        0
    } else {
        let paid = redeem_amount(claims[0], treasury, supply);
        paid + total_redeemed(
            claims.drop_first(),
            (treasury - paid) as nat,
            (supply - claims[0]) as nat,
        )
    }
}

/// No overdraw: redeeming any sequence of holdings that together make up at
/// most the supply, in any order, releases at most the treasury; and when they
/// make up the whole (nonzero) supply, exactly the treasury.
pub proof fn lemma_no_overdraw(claims: Seq<nat>, treasury: nat, supply: nat)
    requires
        sum_of(claims) <= supply,
    ensures
        total_redeemed(claims, treasury, supply) <= treasury,
        sum_of(claims) == supply && supply > 0 ==> total_redeemed(claims, treasury, supply)
            == treasury,
    decreases claims.len(),
{
    if claims.len() > 0 {
        let paid = redeem_amount(claims[0], treasury, supply);
        lemma_redeem_bounded(claims[0], treasury, supply);
        let rest = claims.drop_first();
        let t2 = (treasury - paid) as nat;
        let s2 = (supply - claims[0]) as nat;
        lemma_no_overdraw(rest, t2, s2);
        if sum_of(claims) == supply && supply > 0 && s2 == 0 {
            lemma_zero_supply_pays_nothing(rest, t2);
        }
    }
}

/// Against a zero supply nothing is released.
proof fn lemma_zero_supply_pays_nothing(claims: Seq<nat>, treasury: nat)
    requires
        sum_of(claims) == 0,
    ensures
        total_redeemed(claims, treasury, 0) == 0,
    decreases claims.len(),
{
    if claims.len() > 0 {
        lemma_zero_supply_pays_nothing(claims.drop_first(), treasury);
    }
}

/// What one pool's books hold: each holder's claim-token balance, the
/// claim-token supply and the treasury balance.
pub struct VaultBooks {
    pub balances: Seq<nat>,
    pub supply: nat,
    pub treasury: nat,
}

/// A deposit or a withdrawal by the holder at an index of the books.
pub enum VaultOp {
    Deposit { holder: nat, amount: nat },
    Withdraw { holder: nat, amount: nat },
}

/// Claim tokens and treasury move in lockstep: the holders' balances add up
/// to the supply, which equals the treasury.
pub open spec fn conserved(v: VaultBooks) -> bool {
    sum_of(v.balances) == v.supply && v.supply == v.treasury
}

/// The books after one operation on an open pool. A deposit moves `amount`
/// into the treasury and mints as many claim tokens to the holder; a
/// withdrawal burns them and moves as much out, and is refused (the books are
/// unchanged) when the holder holds fewer.
pub open spec fn apply_op(v: VaultBooks, op: VaultOp) -> VaultBooks {
    match op {
        VaultOp::Deposit { holder, amount } => if holder < v.balances.len() {
            VaultBooks {
                balances: v.balances.update(holder as int, v.balances[holder as int] + amount),
                supply: v.supply + amount,
                treasury: v.treasury + amount,
            }
        } else {
            v
        },
        VaultOp::Withdraw { holder, amount } => if holder < v.balances.len()
            && amount <= v.balances[holder as int] {
            VaultBooks {
                balances: v.balances.update(
                    holder as int,
                    (v.balances[holder as int] - amount) as nat,
                ),
                supply: (v.supply - amount) as nat,
                treasury: (v.treasury - amount) as nat,
            }
        } else {
            v
        },
    }
}

/// The books after a sequence of operations, first to last.
pub open spec fn apply_ops(v: VaultBooks, ops: Seq<VaultOp>) -> VaultBooks
    decreases ops.len(),
{
    if ops.len() == 0 {
        v
    } else {
        apply_ops(apply_op(v, ops[0]), ops.drop_first())
    }
}

proof fn lemma_sum_update(s: Seq<nat>, i: int, x: nat)
    requires
        0 <= i < s.len(),
    ensures
        sum_of(s.update(i, x)) + s[i] == sum_of(s) + x,
        s[i] <= sum_of(s),
    decreases s.len(),
{
    let u = s.update(i, x);
    if i == 0 {
        assert(u.drop_first() =~= s.drop_first());
    } else {
        lemma_sum_update(s.drop_first(), i - 1, x);
        assert(u.drop_first() =~= s.drop_first().update(i - 1, x));
    }
}

/// Conservation: from books whose balances add up to the supply and whose
/// supply equals the treasury, every sequence of deposits and withdrawals
/// leads to books of which the same holds.
pub proof fn lemma_conservation(v: VaultBooks, ops: Seq<VaultOp>)
    requires
        conserved(v),
    ensures
        conserved(apply_ops(v, ops)),
    decreases ops.len(),
{
    if ops.len() > 0 {
        let w = apply_op(v, ops[0]);
        match ops[0] {
            VaultOp::Deposit { holder, amount } => {
                if holder < v.balances.len() {
                    lemma_sum_update(
                        v.balances,
                        holder as int,
                        v.balances[holder as int] + amount,
                    );
                }
            },
            VaultOp::Withdraw { holder, amount } => {
                if holder < v.balances.len() && amount <= v.balances[holder as int] {
                    lemma_sum_update(
                        v.balances,
                        holder as int,
                        (v.balances[holder as int] - amount) as nat,
                    );
                }
            },
        }
        assert(conserved(w));
        lemma_conservation(w, ops.drop_first());
    }
}

/// The books agree with a pool's claim-token supply, its treasury and one
/// holder's balance.
pub open spec fn books_match(v: VaultBooks, supply: u64, treasury: u64, holder: nat, held: u64) -> bool {
    &&& v.supply == supply
    &&& v.treasury == treasury
    &&& holder < v.balances.len()
    &&& v.balances[holder as int] == held
}

} // verus!
