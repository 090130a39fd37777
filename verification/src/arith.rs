//! Saturating and truncating arithmetic on `i128` amounts.

use vstd::prelude::*;

verus! {

/// The representable amount nearest to `x`.
pub open spec fn clamp(x: int) -> int {
    if x > i128::MAX {
        i128::MAX as int
    } else if x < i128::MIN {
        i128::MIN as int
    } else {
        x
    }
}

/// `x` basis-point units as whole units, rounded toward zero.
pub open spec fn from_bps(x: int) -> int {
    if x >= 0 {
        x / 10_000
    } else {
        -((-x) / 10_000)
    }
}

/// Adds two amounts, stopping at the bounds of `i128`.
pub fn saturating_add(a: i128, b: i128) -> (r: i128)
    ensures
        r == clamp(a + b),
{
    match a.checked_add(b) {
        Some(sum) => sum,
        None => if b > 0 {
            i128::MAX
        } else {
            i128::MIN
        },
    }
}

/// Multiplies two amounts, stopping at the bounds of `i128`.
pub fn saturating_mul(a: i128, b: i128) -> (r: i128)
    ensures
        r == clamp(a * b),
{
    match a.checked_mul(b) {
        Some(product) => product,
        None => {
            if (a > 0) == (b > 0) {
                assert(a * b >= 0) by (nonlinear_arith)
                    requires
                        (a > 0) == (b > 0),
                ;
                i128::MAX
            } else {
                assert(a * b <= 0) by (nonlinear_arith)
                    requires
                        (a > 0) != (b > 0),
                ;
                i128::MIN
            }
        },
    }
}

/// Divides by the basis-point denominator, rounding toward zero.
pub fn div_bps(x: i128) -> (r: i128)
    ensures
        r == from_bps(x as int),
{
    x / 10_000
}

/// `bps` basis points of `amount`.
pub open spec fn share(amount: int, bps: int) -> int {
    from_bps(amount * bps)
}

/// `bps` basis points of `amount`, rounded toward zero and stopping at the bounds of `i128`. The
/// product of the two need not be representable.
pub fn bps_of(amount: i128, bps: u64) -> (r: i128)
    ensures
        r == clamp(share(amount as int, bps as int)),
{
    let whole: i128 = div_bps(amount);
    let rest: i128 = amount - whole * 10_000;
    let factor: i128 = bps as i128;
    assert(amount * bps == 10_000 * (whole * bps) + rest * bps) by (nonlinear_arith)
        requires
            amount == whole * 10_000 + rest,
    ;
    assert(-10_000 * bps <= rest * bps <= 10_000 * bps) by (nonlinear_arith)
        requires
            -10_000 < rest < 10_000,
            bps >= 0,
    ;
    assert(amount >= 0 ==> whole * bps >= 0 && rest * bps >= 0 && amount * bps >= 0)
        by (nonlinear_arith)
        requires
            amount >= 0 ==> whole >= 0 && rest >= 0,
            bps >= 0,
    ;
    assert(amount <= 0 ==> whole * bps <= 0 && rest * bps <= 0 && amount * bps <= 0)
        by (nonlinear_arith)
        requires
            amount <= 0 ==> whole <= 0 && rest <= 0,
            bps >= 0,
    ;
    saturating_add(saturating_mul(whole, factor), div_bps(rest * factor))
}

// Laws

/// Clamping keeps every representable amount and takes every other number to the nearest one.
pub proof fn law_clamp_is_nearest(x: int, amount: i128)
    ensures
        i128::MIN <= clamp(x) <= i128::MAX,
        i128::MIN <= x <= i128::MAX ==> clamp(x) == x,
        x <= amount ==> clamp(x) <= amount,
        x >= amount ==> clamp(x) >= amount,
{
}

/// Basis points come out as whole units, rounded down for what is not negative, and alike for
/// negative numbers.
pub proof fn law_basis_points_round_toward_zero(x: int)
    ensures
        x >= 0 ==> 10_000 * from_bps(x) <= x < 10_000 * (from_bps(x) + 1),
        from_bps(-x) == -from_bps(x),
{
}

/// Ten thousand basis points are the whole, none are nothing, shares grow with the basis points,
/// and a negative amount has the negative share.
pub proof fn law_shares(amount: int, bps: int, more: int)
    requires
        amount >= 0,
        0 <= bps <= more,
    ensures
        share(amount, 10_000) == amount,
        share(amount, 0) == 0,
        share(amount, bps) == (amount * bps) / 10_000,
        share(amount, bps) <= share(amount, more),
        share(-amount, bps) == -share(amount, bps),
{
    assert((-amount) * bps == -(amount * bps)) by (nonlinear_arith);
    assert(amount * 0 == 0) by (nonlinear_arith);
    assert(0 <= amount * bps <= amount * more) by (nonlinear_arith)
        requires
            amount >= 0,
            0 <= bps <= more,
    ;
}

} // verus!
