use vstd::prelude::*;
use vstd::arithmetic::div_mod::{lemma_fundamental_div_mod, lemma_fundamental_div_mod_converse};

verus! {

/// Denominator of rates written in basis points (10000 = 100%).
pub const BASIS_POINTS: u64 = 10000;

/// Seconds in one day.
pub const SECONDS_PER_DAY: u64 = 86400;

/// `amount * bp / 10000`, rounded down, as exact natural-number arithmetic.
pub open spec fn basis_points_of(amount: nat, bp: nat) -> nat {
    amount * bp / 10000
}

/// `a * b / d`, rounded down.
pub open spec fn mul_div_floor(a: nat, b: nat, d: nat) -> nat {
    a * b / d
}

/// Computes `amount * bp / 10000` without an intermediate overflow, for `bp <= 10000`.
pub fn apply_basis_points(amount: u128, bp: u64) -> (r: u128)
    requires
        bp <= 10000,
    ensures
        r == basis_points_of(amount as nat, bp as nat),
        r <= amount,
{
    let q: u128 = amount / 10000;
    let rem: u128 = amount % 10000;
    proof {
        lemma_fundamental_div_mod(amount as int, 10000);
        assert(q * bp <= q * 10000) by (nonlinear_arith)
            requires
                bp <= 10000,
        ;
        assert(rem * bp < 10000 * 10000) by (nonlinear_arith)
            requires
                rem < 10000,
                bp <= 10000,
        ;
    }
    let high: u128 = q * (bp as u128);
    let low: u128 = rem * (bp as u128) / 10000;
    proof {
        let x = (amount as int) * (bp as int);
        let lr = (rem as int) * (bp as int);
        lemma_fundamental_div_mod(lr, 10000);
        assert(x == (q as int) * (bp as int) * 10000 + lr) by (nonlinear_arith)
            requires
                amount == 10000 * q + rem,
                x == (amount as int) * (bp as int),
                lr == (rem as int) * (bp as int),
        ;
        assert(x == ((q as int) * (bp as int) + lr / 10000) * 10000 + lr % 10000) by (
        nonlinear_arith)
            requires
                x == (q as int) * (bp as int) * 10000 + lr,
                lr == 10000 * (lr / 10000) + lr % 10000,
        ;
        lemma_fundamental_div_mod_converse(x, 10000, (q as int) * (bp as int) + lr / 10000, lr % 10000);
        assert(x <= (amount as int) * 10000) by (nonlinear_arith)
            requires
                x == (amount as int) * (bp as int),
                bp <= 10000,
                amount >= 0,
        ;
        assert(x / 10000 <= amount) by (nonlinear_arith)
            requires
                x <= (amount as int) * 10000,
                x >= 0,
        ;
    }
    high + low
}

/// Computes `a * b / d` rounded down, or `None` where `a * b` does not fit in 128 bits.
pub fn checked_mul_div(a: u128, b: u128, d: u128) -> (r: Option<u128>)
    requires
        d > 0,
    ensures
        r is Some <==> a * b <= u128::MAX,
        r matches Some(v) ==> v == mul_div_floor(a as nat, b as nat, d as nat),
{
    match a.checked_mul(b) {
        Some(p) => {
            proof {
                assert(p / d <= p) by (nonlinear_arith)
                    requires
                        d > 0,
                        p >= 0,
                ;
            }
            Some(p / d)
        },
        None => None,
    }
}

} // verus!
