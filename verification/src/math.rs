//! The arithmetic of fees and statistics.

use vstd::arithmetic::div_mod::lemma_fundamental_div_mod_converse;
use vstd::prelude::*;

verus! {

/// The number of basis points in a whole.
pub const BPS_SCALE: i128 = 10_000;

/// The fee on `total` at `fee_bps` basis points, rounded down.
pub open spec fn fee(total: int, fee_bps: int) -> int {
    total * fee_bps / 10_000
}

/// How much of `goal` is reached by `total`, in basis points, rounded down and
/// at most 10000. A campaign without a positive goal has no progress.
pub open spec fn progress_bps(total: int, goal: int) -> int {
    if goal <= 0 {
        0
    } else if total * 10_000 / goal > 10_000 {
        10_000
    } else {
        total * 10_000 / goal
    }
}

/// `total` divided among `count` contributors, rounded down, or 0 where there
/// is no contributor.
pub open spec fn average(total: int, count: int) -> int {
    if count == 0 {
        0
    } else {
        total / count
    }
}

/// A fee at up to 10000 basis points is between nothing and the whole amount,
/// the rest is what is left of the amount, and fee and rest add up to it.
pub proof fn lemma_fee_bounds(total: int, fee_bps: int)
    requires
        0 <= total,
        0 <= fee_bps <= 10_000,
    ensures
        0 <= fee(total, fee_bps) <= total,
        fee(total, 0) == 0,
        fee(total, 10_000) == total,
        fee(total, fee_bps) + (total - fee(total, fee_bps)) == total,
{
    assert(0 <= total * fee_bps <= total * 10_000) by (nonlinear_arith)
        requires
            0 <= total,
            0 <= fee_bps <= 10_000,
    ;
    assert(total * 0 == 0);
}

/// Progress never exceeds 10000 basis points, is 10000 once the goal is
/// reached, and is 0 for a campaign whose goal is 0.
pub proof fn lemma_progress_bounds(total: int, goal: int)
    requires
        0 <= total,
    ensures
        0 <= progress_bps(total, goal) <= 10_000,
        goal == 0 ==> progress_bps(total, goal) == 0,
        0 < goal <= total ==> progress_bps(total, goal) == 10_000,
        0 <= total < goal ==> progress_bps(total, goal) < 10_000,
{
    if goal > 0 {
        lemma_scaled_quotient(total, goal);
    }
}

/// Scaling by 10000 and dividing by a positive `den` keeps the order of
/// `num` and `den`.
proof fn lemma_scaled_quotient(num: int, den: int)
    requires
        0 <= num,
        0 < den,
    ensures
        0 <= num * 10_000 / den,
        num >= den ==> num * 10_000 / den >= 10_000,
        num < den ==> num * 10_000 / den < 10_000,
{
    let q = num * 10_000 / den;
    let r = num * 10_000 % den;
    assert(num * 10_000 == den * q + r && 0 <= r < den) by (nonlinear_arith)
        requires
            0 < den,
            q == num * 10_000 / den,
            r == num * 10_000 % den,
    ;
    assert(q >= 0) by (nonlinear_arith)
        requires
            0 <= num,
            0 < den,
            num * 10_000 == den * q + r,
            0 <= r < den,
    ;
    if num >= den {
        assert(q >= 10_000) by (nonlinear_arith)
            requires
                num >= den,
                0 < den,
                num * 10_000 == den * q + r,
                0 <= r < den,
        ;
    } else {
        assert(q < 10_000) by (nonlinear_arith)
            requires
                0 <= num < den,
                num * 10_000 == den * q + r,
                0 <= r < den,
        ;
    }
}

/// The fee on `total` at `fee_bps` basis points, or `None` where the product
/// of the two does not fit the machine type.
pub fn checked_fee(total: i128, fee_bps: u32) -> (result: Option<i128>)
    requires
        0 <= total,
        fee_bps <= 10_000,
    ensures
        match result {
            Some(share) => total * fee_bps <= i128::MAX && share == fee(
                total as int,
                fee_bps as int,
            ),
            None => total * fee_bps > i128::MAX,
        },
{
    proof {
        lemma_fee_bounds(total as int, fee_bps as int);
        assert(0 <= total * fee_bps) by (nonlinear_arith)
            requires
                0 <= total,
                0 <= fee_bps,
        ;
    }
    match total.checked_mul(fee_bps as i128) {
        Some(product) => Some(product / BPS_SCALE),
        None => None,
    }
}

/// `num` times ten, divided by a `den` above `num`: the quotient and the
/// remainder, found by adding `num` ten times and taking `den` off whenever
/// it is reached, so that no intermediate value exceeds `den`.
fn times_ten(num: i128, den: i128) -> (result: (u32, i128))
    requires
        0 <= num < den,
    ensures
        result.0 * den + result.1 == 10 * num,
        0 <= result.1 < den,
        result.0 < 10,
{
    let mut digit: u32 = 0;
    let mut rest: i128 = 0;
    let mut step: u32 = 0;
    while step < 10
        invariant
            0 <= num < den,
            step <= 10,
            digit <= step,
            0 <= rest < den,
            digit * den + rest == step * num,
        decreases 10 - step,
    {
        if rest >= den - num {
            assert((digit + 1) * den == digit * den + den) by (nonlinear_arith);
            rest = rest - (den - num);
            digit = digit + 1;
        } else {
            rest = rest + num;
        }
        assert((step + 1) * num == step * num + num) by (nonlinear_arith);
        step = step + 1;
    }
    assert(digit < 10) by (nonlinear_arith)
        requires
            digit * den + rest == 10 * num,
            0 <= num < den,
            0 <= rest,
    ;
    (digit, rest)
}

/// `num` times 10000, divided by a `den` above `num`, where the product
/// itself may be too large for the machine type: long division, one decimal
/// place at a time.
fn scaled_quotient(num: i128, den: i128) -> (quotient: u32)
    requires
        0 <= num < den,
    ensures
        quotient == num * 10_000 / (den as int),
{
    let (d1, r1) = times_ten(num, den);
    let (d2, r2) = times_ten(r1, den);
    let (d3, r3) = times_ten(r2, den);
    let (d4, r4) = times_ten(r3, den);
    let quotient = ((d1 * 10 + d2) * 10 + d3) * 10 + d4;
    proof {
        assert(den * quotient + r4 == num * 10_000) by (nonlinear_arith)
            requires
                quotient == ((d1 * 10 + d2) * 10 + d3) * 10 + d4,
                d1 * den + r1 == 10 * num,
                d2 * den + r2 == 10 * r1,
                d3 * den + r3 == 10 * r2,
                d4 * den + r4 == 10 * r3,
        ;
        lemma_fundamental_div_mod_converse(num * 10_000, den as int, quotient as int, r4 as int);
    }
    quotient
}

/// How much of `goal` is reached by `total`, in basis points.
pub fn progress(total: i128, goal: i128) -> (bps: u32)
    requires
        0 <= total,
    ensures
        bps == progress_bps(total as int, goal as int),
{
    if goal <= 0 {
        return 0;
    }
    proof {
        lemma_scaled_quotient(total as int, goal as int);
    }
    if total >= goal {
        return 10_000;
    }
    match total.checked_mul(BPS_SCALE) {
        Some(scaled) => (scaled / goal) as u32,
        None => scaled_quotient(total, goal),
    }
}

/// `total` divided among `count` contributors, rounded down.
pub fn mean(total: i128, count: u32) -> (share: i128)
    requires
        0 <= total,
    ensures
        share == average(total as int, count as int),
{
    if count == 0 {
        0
    } else {
        total / (count as i128)
    }
}

} // verus!
