//! Unsigned fixed-point arithmetic of the payoff: every product is taken over
//! the integers before it is divided, so no intermediate value is lost to the
//! width of `u128`.

use vstd::arithmetic::div_mod::{
    lemma_div_is_ordered, lemma_div_plus_one, lemma_fundamental_div_mod,
    lemma_fundamental_div_mod_converse,
};
use vstd::prelude::*;

verus! {

/// One whole unit in 24-decimal fixed point.
pub const SCALE: u128 = 1_000_000_000_000_000_000_000_000;

/// The number of basis points in one whole.
pub const BPS_DENOMINATOR: u128 = 10_000;

/// `floor(a * b / d)` over the integers.
pub open spec fn mul_div_spec(a: int, b: int, d: int) -> int {
    (a * b) / d
}

/// The long side's share of collateral, out of `SCALE`, at `price` for a band
/// from `lower` to `upper`.
pub open spec fn settlement_factor_spec(lower: int, upper: int, price: int) -> int {
    if price <= lower {
        0
    } else if price >= upper {
        SCALE as int
    } else {
        mul_div_spec(price - lower, SCALE as int, upper - lower)
    }
}

/// What `amount` claims are worth when their side holds `share` out of `SCALE`.
pub open spec fn share_payout_spec(amount: int, share: int) -> int {
    mul_div_spec(amount, share, SCALE as int)
}

/// The fee on `amount` at `bps` basis points.
pub open spec fn fee_spec(amount: int, bps: int) -> int {
    mul_div_spec(amount, bps, BPS_DENOMINATOR as int)
}

proof fn lemma_quotient_unique(x: int, d: int, q: int, r: int)
    requires
        0 < d,
        0 <= r < d,
        x == q * d + r,
    ensures
        x / d == q,
{
    lemma_fundamental_div_mod_converse(x, d, q, r);
}

proof fn lemma_half_product(a: int, b: int)
    requires
        0 <= a,
        0 <= b,
    ensures
        a * b == 2 * (a * (b / 2)) + (b % 2) * a,
        a * (b / 2) <= a * b,
{
    let h = b / 2;
    let m = b % 2;
    assert(b == 2 * h + m);
    assert(a * b == 2 * (a * h) + m * a) by (nonlinear_arith)
        requires
            b == 2 * h + m,
    ;
    assert(a * h <= a * b) by (nonlinear_arith)
        requires
            0 <= a,
            0 <= h <= b,
    ;
}

/// Quotient and remainder of `a * b` by `d`, by halving `b`.
fn mul_div_rem(a: u128, b: u128, d: u128) -> (r: Option<(u128, u128)>)
    requires
        d > 0,
    ensures
        match r {
            Some((q, rem)) => q * d + rem == a * b && rem < d,
            None => (a * b) / (d as int) > u128::MAX,
        },
    decreases b,
{
    if b == 0 {
        assert(a * b == 0) by (nonlinear_arith)
            requires
                b == 0,
        ;
        return Some((0, 0));
    }
    let half = mul_div_rem(a, b / 2, d);
    proof {
        lemma_half_product(a as int, b as int);
    }
    let (q, r) = match half {
        Some(pair) => pair,
        None => {
            proof {
                lemma_div_is_ordered(a * (b / 2), a * b, d as int);
            }
            return None;
        },
    };
    // a * (b / 2) == q * d + r; doubling it keeps the remainder below d.
    let (r2, c1): (u128, u128) = if r >= d - r {
        (r - (d - r), 1)
    } else {
        (r + r, 0)
    };
    let odd = b % 2 == 1;
    let qa: u128 = if odd { a / d } else { 0 };
    let ra: u128 = if odd { a % d } else { 0 };
    let (r3, c2): (u128, u128) = if r2 >= d - ra {
        (r2 - (d - ra), 1)
    } else {
        (r2 + ra, 0)
    };
    let ghost total: int = 2 * q + c1 + qa + c2;
    proof {
        let step: int = if odd { a as int } else { 0 };
        assert(step == qa * d + ra) by (nonlinear_arith)
            requires
                odd ==> qa == a / d && ra == a % d,
                !odd ==> qa == 0 && ra == 0,
                step == (if odd { a as int } else { 0 }),
                d > 0,
        ;
        let m: int = b as int % 2;
        assert(m * a == step) by (nonlinear_arith)
            requires
                m == (if odd { 1int } else { 0int }),
                step == (if odd { a as int } else { 0 }),
        ;
        assert(total * d + r3 == a * b) by (nonlinear_arith)
            requires
                total == 2 * q + c1 + qa + c2,
                a * b == 2 * (q * d + r) + (qa * d + ra),
                2 * r == c1 * d + r2,
                r2 + ra == c2 * d + r3,
        ;
        lemma_quotient_unique(a * b, d as int, total, r3 as int);
    }
    let doubled = match q.checked_mul(2) {
        Some(v) => v,
        None => {
            return None;
        },
    };
    let with_carry = match doubled.checked_add(c1) {
        Some(v) => v,
        None => {
            return None;
        },
    };
    let with_a = match with_carry.checked_add(qa) {
        Some(v) => v,
        None => {
            return None;
        },
    };
    match with_a.checked_add(c2) {
        Some(v) => Some((v, r3)),
        None => None,
    }
}

/// `floor(a * b / d)`, exact for every product, or `None` where `d` is zero
/// or the quotient does not fit in `u128`.
pub fn mul_div(a: u128, b: u128, d: u128) -> (r: Option<u128>)
    ensures
        r == (if d > 0 && mul_div_spec(a as int, b as int, d as int) <= u128::MAX {
            Some(mul_div_spec(a as int, b as int, d as int) as u128)
        } else {
            None
        }),
{
    if d == 0 {
        return None;
    }
    match mul_div_rem(a, b, d) {
        Some((q, rem)) => {
            proof {
                lemma_quotient_unique(a * b, d as int, q as int, rem as int);
            }
            Some(q)
        },
        None => None,
    }
}


/// A product of a value below `d` with `s`, divided by `d`, stays below `s`.
proof fn lemma_scaled_below(x: int, s: int, d: int)
    requires
        0 <= x < d,
        0 < s,
    ensures
        0 <= (x * s) / d < s,
{
    let q = (x * s) / d;
    lemma_fundamental_div_mod(x * s, d);
    assert(0 <= q < s) by (nonlinear_arith)
        requires
            0 <= x < d,
            0 < s,
            x * s == d * q + (x * s) % d,
            0 <= (x * s) % d < d,
    ;
}

/// A product with a share of at most `d`, divided by `d`, is at most the
/// other factor.
proof fn lemma_share_at_most_whole(a: int, share: int, d: int)
    requires
        0 <= a,
        0 <= share <= d,
        0 < d,
    ensures
        0 <= (a * share) / d <= a,
{
    let q = (a * share) / d;
    lemma_fundamental_div_mod(a * share, d);
    assert(0 <= q <= a) by (nonlinear_arith)
        requires
            0 <= a,
            0 <= share <= d,
            0 < d,
            a * share == d * q + (a * share) % d,
            0 <= (a * share) % d < d,
    ;
}

/// The settlement factor of `price` for the band from `lower` to `upper`:
/// nothing at or below `lower`, everything at or above `upper`, and the
/// floor of the linear interpolation between them.
pub fn settlement_factor(lower: u128, upper: u128, price: u128) -> (f: u128)
    ensures
        f == settlement_factor_spec(lower as int, upper as int, price as int),
        f <= SCALE,
{
    if price <= lower {
        0
    } else if price >= upper {
        SCALE
    } else {
        proof {
            lemma_scaled_below(price - lower, SCALE as int, upper - lower);
        }
        let f = mul_div(price - lower, SCALE, upper - lower);
        f.unwrap()
    }
}

/// What `amount` claims pay out when their side holds `share` out of `SCALE`.
pub fn share_payout(amount: u128, share: u128) -> (payout: u128)
    requires
        share <= SCALE,
    ensures
        payout == share_payout_spec(amount as int, share as int),
        payout <= amount,
{
    proof {
        lemma_share_at_most_whole(amount as int, share as int, SCALE as int);
    }
    let payout = mul_div(amount, share, SCALE);
    payout.unwrap()
}

/// The fee on `amount` at `bps` basis points, rounded down.
pub fn fee_amount(amount: u128, bps: u16) -> (fee: u128)
    requires
        bps <= BPS_DENOMINATOR,
    ensures
        fee == fee_spec(amount as int, bps as int),
        fee <= amount,
{
    proof {
        lemma_share_at_most_whole(amount as int, bps as int, BPS_DENOMINATOR as int);
    }
    let fee = mul_div(amount, bps as u128, BPS_DENOMINATOR);
    fee.unwrap()
}

/// The settlement factor is zero up to the lower bound, `SCALE` from the
/// upper bound on, and between zero and `SCALE` everywhere, below `SCALE`
/// for every price under the upper bound.
pub proof fn lemma_settlement_factor_range(lower: int, upper: int, price: int)
    requires
        lower < upper,
    ensures
        price <= lower ==> settlement_factor_spec(lower, upper, price) == 0,
        price >= upper ==> settlement_factor_spec(lower, upper, price) == SCALE,
        0 <= settlement_factor_spec(lower, upper, price) <= SCALE,
        price < upper ==> settlement_factor_spec(lower, upper, price) < SCALE,
{
    if lower < price < upper {
        lemma_scaled_below(price - lower, SCALE as int, upper - lower);
    }
}

/// A higher price never gives a lower settlement factor.
pub proof fn lemma_settlement_factor_monotonic(
    lower: int,
    upper: int,
    lesser: int,
    greater: int,
)
    requires
        lower < upper,
        lesser <= greater,
    ensures
        settlement_factor_spec(lower, upper, lesser) <= settlement_factor_spec(
            lower,
            upper,
            greater,
        ),
{
    lemma_settlement_factor_range(lower, upper, lesser);
    lemma_settlement_factor_range(lower, upper, greater);
    if lower < lesser && greater < upper {
        let s = SCALE as int;
        assert((lesser - lower) * s <= (greater - lower) * s) by (nonlinear_arith)
            requires
                lesser <= greater,
                s >= 0,
        ;
        lemma_div_is_ordered((lesser - lower) * s, (greater - lower) * s, upper - lower);
    }
}

/// Inside a band no wider than `SCALE` the settlement factor is strictly
/// increasing in the price, and lies strictly between zero and `SCALE`.
pub proof fn lemma_settlement_factor_strictly_increasing(
    lower: int,
    upper: int,
    lesser: int,
    greater: int,
)
    requires
        lower < upper,
        upper - lower <= SCALE,
        lower < lesser < greater < upper,
    ensures
        0 < settlement_factor_spec(lower, upper, lesser),
        settlement_factor_spec(lower, upper, lesser) < settlement_factor_spec(
            lower,
            upper,
            greater,
        ),
        settlement_factor_spec(lower, upper, greater) < SCALE,
{
    let s = SCALE as int;
    let d = upper - lower;
    let x1 = lesser - lower;
    let x2 = greater - lower;
    lemma_settlement_factor_range(lower, upper, greater);
    // One step in the price adds `s >= d` to the dividend, so at least one to
    // the quotient.
    assert(x1 * s + d <= x2 * s) by (nonlinear_arith)
        requires
            0 <= x1,
            x1 + 1 <= x2,
            0 < d <= s,
    ;
    lemma_div_plus_one(x1 * s, d);
    lemma_div_is_ordered(x1 * s + d, x2 * s, d);
    assert(d <= x1 * s) by (nonlinear_arith)
        requires
            1 <= x1,
            0 < d <= s,
    ;
    lemma_div_is_ordered(d, x1 * s, d);
    assert(d / d == 1) by {
        lemma_quotient_unique(d, d, 1, 0);
    }
}

/// What a pair of equal long and short amounts pays out together: the amount
/// itself where the long payout is exact, and one unit less where it was
/// rounded down.
pub proof fn lemma_pair_payout(amount: int, factor: int)
    requires
        0 <= amount,
        0 <= factor <= SCALE,
    ensures
        share_payout_spec(amount, factor) + share_payout_spec(amount, SCALE - factor) == (if (amount
            * factor) % (SCALE as int) == 0 {
            amount
        } else {
            amount - 1
        }),
{
    let s = SCALE as int;
    let x = amount * factor;
    let y = amount * (s - factor);
    assert(x + y == amount * s && 0 <= x && 0 <= y) by (nonlinear_arith)
        requires
            x == amount * factor,
            y == amount * (s - factor),
            0 <= amount,
            0 <= factor <= s,
    ;
    lemma_fundamental_div_mod(x, s);
    lemma_fundamental_div_mod(y, s);
}

/// An equal pair of long and short claims redeems for exactly its amount
/// wherever the long payout involves no rounding.
pub proof fn lemma_pair_payout_conserves(amount: int, factor: int)
    requires
        0 <= amount,
        0 <= factor <= SCALE,
        (amount * factor) % (SCALE as int) == 0,
    ensures
        share_payout_spec(amount, factor) + share_payout_spec(amount, SCALE - factor) == amount,
{
    lemma_pair_payout(amount, factor);
}

/// The payouts of a long and a short amount together are no more than the
/// larger of the two amounts.
pub proof fn lemma_payouts_fit(long_amount: int, short_amount: int, factor: int)
    requires
        0 <= long_amount,
        0 <= short_amount,
        0 <= factor <= SCALE,
    ensures
        share_payout_spec(long_amount, factor) + share_payout_spec(short_amount, SCALE - factor)
            <= (if long_amount >= short_amount {
            long_amount
        } else {
            short_amount
        }),
{
    let s = SCALE as int;
    let m = if long_amount >= short_amount {
        long_amount
    } else {
        short_amount
    };
    let x = long_amount * factor;
    let y = short_amount * (s - factor);
    assert(x + y <= m * s && 0 <= x && 0 <= y) by (nonlinear_arith)
        requires
            x == long_amount * factor,
            y == short_amount * (s - factor),
            0 <= long_amount <= m,
            0 <= short_amount <= m,
            0 <= factor <= s,
    ;
    lemma_fundamental_div_mod(x, s);
    lemma_fundamental_div_mod(y, s);
}

/// A fee of at most the whole is between nothing and the amount.
pub proof fn lemma_fee_within_amount(amount: int, bps: int)
    requires
        0 <= amount,
        0 <= bps <= BPS_DENOMINATOR,
    ensures
        0 <= fee_spec(amount, bps) <= amount,
{
    lemma_share_at_most_whole(amount, bps, BPS_DENOMINATOR as int);
}

/// A payout is between nothing and the amount redeemed.
pub proof fn lemma_payout_within_amount(amount: int, share: int)
    requires
        0 <= amount,
        0 <= share <= SCALE,
    ensures
        0 <= share_payout_spec(amount, share) <= amount,
{
    lemma_share_at_most_whole(amount, share, SCALE as int);
}

} // verus!
