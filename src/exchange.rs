//! The exchange rate at which claim tokens are redeemed for native asset,
//! and what it guarantees over a run of redemptions.
use vstd::prelude::*;

use vstd::arithmetic::div_mod::{lemma_fundamental_div_mod, lemma_mod_pos_bound};

use crate::error::ErrorCode;

verus! {

/// The native asset owed for `claim` claim tokens, out of `balance` native
/// asset backing `supply` claim tokens: rounded down, in the pool's favour.
pub open spec fn native_owed(claim: int, balance: int, supply: int) -> int {
    claim * balance / supply
}

/// What `redeem_amount` returns.
pub open spec fn redeem_amount_spec(claim: u64, balance: u64, supply: u64) -> Result<u64, ErrorCode> {
    if supply == 0 || native_owed(claim as int, balance as int, supply as int) > u64::MAX {
        Err(ErrorCode::ArithmeticFault)
    } else {
        Ok(native_owed(claim as int, balance as int, supply as int) as u64)
    }
}

/// The native asset owed for `claim_amount` claim tokens when the pool holds
/// `native_balance` against `supply` outstanding claim tokens. The product is
/// formed in 128 bits; a zero supply, or a result beyond 64 bits (possible
/// only when `claim_amount` exceeds `supply`), is an `ArithmeticFault`.
pub fn redeem_amount(claim_amount: u64, native_balance: u64, supply: u64) -> (r: Result<u64, ErrorCode>)
    ensures
        r == redeem_amount_spec(claim_amount, native_balance, supply),
        r is Ok && claim_amount <= supply ==> r->Ok_0 <= native_balance,
{
    assert((claim_amount as u128) * (native_balance as u128) <= u128::MAX) by (nonlinear_arith);
    let product = match (claim_amount as u128).checked_mul(native_balance as u128) {
        Some(p) => p,
        None => return Err(ErrorCode::ArithmeticFault),
    };
    let owed = match product.checked_div(supply as u128) {
        Some(q) => q,
        None => return Err(ErrorCode::ArithmeticFault),
    };
    if owed > u64::MAX as u128 {
        return Err(ErrorCode::ArithmeticFault);
    }
    proof {
        if claim_amount <= supply {
            lemma_owed_within_balance(claim_amount as int, native_balance as int, supply as int);
        }
    }
    Ok(owed as u64)
}

proof fn lemma_floor_div(n: int, d: int)
    requires
        n >= 0,
        d > 0,
    ensures
        0 <= n / d,
        (n / d) * d <= n < (n / d + 1) * d,
{
    lemma_fundamental_div_mod(n, d);
    lemma_mod_pos_bound(n, d);
    assert(0 <= n / d) by (nonlinear_arith)
        requires
            n == d * (n / d) + n % d,
            0 <= n % d < d,
            n >= 0,
    ;
    assert((n / d) * d <= n < (n / d + 1) * d) by (nonlinear_arith)
        requires
            n == d * (n / d) + n % d,
            0 <= n % d < d,
    ;
}

/// A claim within the supply is owed no more than the balance, and nothing
/// negative.
pub proof fn lemma_owed_within_balance(claim: int, balance: int, supply: int)
    requires
        0 <= claim <= supply,
        supply > 0,
        balance >= 0,
    ensures
        0 <= native_owed(claim, balance, supply) <= balance,
{
    let q = native_owed(claim, balance, supply);
    assert(claim * balance >= 0) by (nonlinear_arith)
        requires
            claim >= 0,
            balance >= 0,
    ;
    lemma_floor_div(claim * balance, supply);
    assert(q <= balance) by (nonlinear_arith)
        requires
            q * supply <= claim * balance,
            claim <= supply,
            balance >= 0,
            supply > 0,
    ;
}

/// The sum of a sequence of amounts.
pub open spec fn total(amounts: Seq<nat>) -> nat
    decreases amounts.len(),
{
    if amounts.len() == 0 {
        0
    } else {
        amounts[0] + total(amounts.drop_first())
    }
}

/// The native asset paid out when `claims` are redeemed one after another
/// from a pool that starts with `balance` native asset against `supply`
/// claim tokens; each redemption burns its claim and pays what it is owed.
pub open spec fn redemption_payouts(balance: nat, supply: nat, claims: Seq<nat>) -> nat
    decreases claims.len(),
{
    if claims.len() == 0 || supply == 0 || claims[0] > supply {
        0
    } else {
        let owed = native_owed(claims[0] as int, balance as int, supply as int);
        (owed + redemption_payouts(
            (balance - owed) as nat,
            (supply - claims[0]) as nat,
            claims.drop_first(),
        )) as nat
    }
}

/// Conservation: redemptions that together burn no more than the
/// outstanding supply pay out no more native asset than the pool held, so
/// the dust left in custody is never negative.
pub proof fn lemma_redemptions_conserve(balance: nat, supply: nat, claims: Seq<nat>)
    requires
        total(claims) <= supply,
    ensures
        redemption_payouts(balance, supply, claims) <= balance,
    decreases claims.len(),
{
    if claims.len() == 0 || supply == 0 || claims[0] > supply {
    } else {
        let owed = native_owed(claims[0] as int, balance as int, supply as int);
        lemma_owed_within_balance(claims[0] as int, balance as int, supply as int);
        lemma_redemptions_conserve(
            (balance - owed) as nat,
            (supply - claims[0]) as nat,
            claims.drop_first(),
        );
    }
}

/// Order independence: redeeming `a` and then `b` pays out at most what
/// redeeming `a + b` at once pays, and at most one unit less.
pub proof fn lemma_split_redemption(balance: nat, supply: nat, a: nat, b: nat)
    requires
        a + b <= supply,
    ensures
        redemption_payouts(balance, supply, seq![a, b]) <= redemption_payouts(
            balance,
            supply,
            seq![(a + b) as nat],
        ),
        redemption_payouts(balance, supply, seq![(a + b) as nat]) <= redemption_payouts(
            balance,
            supply,
            seq![a, b],
        ) + 1,
{
    reveal_with_fuel(redemption_payouts, 3);
    let two = seq![a, b];
    let one = seq![(a + b) as nat];
    assert(two.drop_first() =~= seq![b]);
    assert(one.drop_first() =~= Seq::<nat>::empty());
    if supply == 0 {
        return;
    }
    let bb = balance as int;
    let s = supply as int;
    let x = native_owed(a as int, bb, s);
    let z = native_owed((a + b) as int, bb, s);
    lemma_owed_within_balance(a as int, bb, s);
    lemma_owed_within_balance((a + b) as int, bb, s);
    assert(a * bb >= 0 && (a + b) * bb >= 0) by (nonlinear_arith)
        requires
            bb >= 0,
    ;
    lemma_floor_div(a * bb, s);
    lemma_floor_div((a + b) * bb, s);
    let t = s - a;
    let rest = seq![b];
    assert(rest.drop_first() =~= Seq::<nat>::empty());
    if t == 0 {
        assert(b == 0);
        assert(redemption_payouts(balance, supply, two) == x);
        assert(redemption_payouts(balance, supply, one) == z);
        assert(x == z);
        return;
    }
    let y = native_owed(b as int, bb - x, t);
    lemma_owed_within_balance(b as int, bb - x, t);
    assert(b * (bb - x) >= 0) by (nonlinear_arith)
        requires
            bb - x >= 0,
    ;
    lemma_floor_div(b * (bb - x), t);
    assert(redemption_payouts(balance, supply, two) == x + y);
    assert(redemption_payouts(balance, supply, one) == z);
    let r = a * bb - x * s;
    assert(0 <= r < s) by (nonlinear_arith)
        requires
            r == a * bb - x * s,
            x * s <= a * bb < (x + 1) * s,
    ;
    // Scaled by the supply, what `b` is owed from the remainder is
    // b * (bb * t + r).
    assert(s * (b * (bb - x)) == b * (bb * t + r)) by (nonlinear_arith)
        requires
            r == a * bb - x * s,
            t == s - a,
    ;
    assert(x + y <= z) by (nonlinear_arith)
        requires
            y * t <= b * (bb - x),
            s * (b * (bb - x)) == b * (bb * t + r),
            (a + b) * bb < (z + 1) * s,
            a * bb == x * s + r,
            0 <= r,
            b <= t,
            t > 0,
            s > 0,
            bb >= 0,
    ;
    assert(b * bb * t <= b * (bb * t + r)) by (nonlinear_arith)
        requires
            b >= 0,
            r >= 0,
    ;
    assert(b * (bb * t + r) < s * ((y + 1) * t)) by (nonlinear_arith)
        requires
            b * (bb - x) < (y + 1) * t,
            s * (b * (bb - x)) == b * (bb * t + r),
            s > 0,
    ;
    assert(b * bb < s * (y + 1)) by (nonlinear_arith)
        requires
            b * bb * t < s * ((y + 1) * t),
            t > 0,
    ;
    assert(z * s < (x + y + 2) * s) by (nonlinear_arith)
        requires
            z * s <= (a + b) * bb,
            a * bb < (x + 1) * s,
            b * bb < s * (y + 1),
    ;
    assert(z <= x + y + 1) by (nonlinear_arith)
        requires
            z * s < (x + y + 2) * s,
            s > 0,
    ;
}

} // verus!
