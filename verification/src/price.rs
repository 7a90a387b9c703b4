//! The pricing model: the ask price of a region derived from its immutable
//! descriptor, the listed per-timeslice price, and the current timeslice.
//!
//! The price decays with the remaining duration of the region and scales
//! with the occupancy of its core mask: an expired region is worth exactly
//! zero, and a region that has not started yet costs its full undiscounted
//! price. All arithmetic saturates instead of wrapping, and the occupancy
//! fraction is computed in explicit fixed point so that results are
//! bit-reproducible across independently executing validators.

use crate::coretime::lemma_seq_ones_bound;
use crate::coretime::Region;
use crate::coretime::Timeslice;
use crate::coretime::CORE_MASK_BIT_LEN;
use crate::fixed_point::fixed_from_rational;
use crate::fixed_point::fixed_mul_integer;
use crate::fixed_point::fixed_of_int;
use crate::fixed_point::FIXED_ACCURACY;
use crate::market::MarketError;
use crate::Balance;
use vstd::arithmetic::div_mod::lemma_div_is_ordered;
use vstd::arithmetic::div_mod::lemma_div_multiples_vanish;
use vstd::arithmetic::div_mod::lemma_div_pos_is_pos;
use vstd::arithmetic::div_mod::lemma_fundamental_div_mod;
use vstd::arithmetic::div_mod::lemma_fundamental_div_mod_converse;
use vstd::arithmetic::mul::lemma_mul_inequality;
use vstd::arithmetic::mul::lemma_mul_is_commutative;
use vstd::prelude::*;

verus! {

/// `a - b`, saturating to zero instead of going negative.
pub open spec fn sat_sub(a: int, b: int) -> int {
    if a >= b {
        a - b
    } else {
        0
    }
}

/// `x` capped at the largest 128-bit value.
pub open spec fn cap_u128(x: int) -> int {
    if x <= u128::MAX {
        x
    } else {
        u128::MAX as int
    }
}

/// `a * b`, saturating at the largest 128-bit value.
pub open spec fn sat_mul(a: int, b: int) -> int {
    cap_u128(a * b)
}

/// The fixed-point inner value of the occupancy fraction `ones / 80`.
pub open spec fn occupancy_inner(ones: int) -> int {
    (ones * FIXED_ACCURACY) / 80
}

/// The price of a single timeslice: the listed per-timeslice price scaled
/// down by the occupancy of the mask, rounded down.
pub open spec fn per_timeslice_price(ones: int, timeslice_price: u128) -> int {
    (occupancy_inner(ones) * fixed_of_int(timeslice_price) / (FIXED_ACCURACY as int)) / (
    FIXED_ACCURACY as int)
}

/// The ask price of a region at timeslice `now`: the per-timeslice price
/// times the full duration while the region has not started, and times the
/// remaining duration afterwards, which is zero once the region is expired.
pub open spec fn region_price(region: Region, timeslice_price: u128, now: Timeslice) -> int {
    let ptp = per_timeslice_price(region.mask.ones() as int, timeslice_price);
    if (now as int) < region.begin {
        sat_mul(ptp, sat_sub(region.end as int, region.begin as int))
    } else {
        sat_mul(ptp, sat_sub(region.end as int, now as int))
    }
}

/// `a * b`, saturating at the largest 128-bit value.
pub fn saturating_mul_u128(a: u128, b: u128) -> (r: u128)
    ensures
        r as int == sat_mul(a as int, b as int),
{
    if a == 0 || b == 0 {
        0
    } else if a <= u128::MAX / b {
        proof {
            lemma_mul_inequality(a as int, (u128::MAX / b) as int, b as int);
            lemma_fundamental_div_mod(u128::MAX as int, b as int);
        }
        a * b
    } else {
        proof {
            lemma_fundamental_div_mod(u128::MAX as int, b as int);
            assert((a as int) * (b as int) > u128::MAX) by (nonlinear_arith)
                requires
                    a as int > (u128::MAX as int) / (b as int),
                    b as int >= 1,
                    u128::MAX as int == (b as int) * ((u128::MAX as int) / (b as int)) + (
                    u128::MAX as int) % (b as int),
                    (u128::MAX as int) % (b as int) < b as int,
            ;
        }
        u128::MAX
    }
}

/// Computes the ask price of `region` at `current_timeslice`, for the given
/// listed per-timeslice price. The computation never fails: the occupancy
/// fraction always fits the fixed-point range.
pub fn calculate_price(
    region: &Region,
    timeslice_price: Balance,
    current_timeslice: Timeslice,
) -> (r: Result<Balance, MarketError>)
    ensures
        r matches Ok(p) && p as int == region_price(*region, timeslice_price, current_timeslice),
{
    let ones: u32 = region.mask.count_ones();
    proof {
        lemma_seq_ones_bound(region.mask.0@, 0, 80);
        lemma_mul_inequality(ones as int, 80, FIXED_ACCURACY as int);
        lemma_div_is_ordered(
            (ones as int) * (FIXED_ACCURACY as int),
            80 * (FIXED_ACCURACY as int),
            80,
        );
        lemma_div_multiples_vanish(FIXED_ACCURACY as int, 80);
    }
    let occ: u128 = match fixed_from_rational(ones as u128, CORE_MASK_BIT_LEN as u128) {
        Some(v) => v,
        None => {
            return Err(MarketError::ArithmeticError);
        },
    };
    let scaled: u128 = fixed_mul_integer(occ, timeslice_price);
    let per_ts: u128 = scaled / FIXED_ACCURACY;
    let duration: u32 = if region.end >= region.begin {
        region.end - region.begin
    } else {
        0
    };
    if current_timeslice < region.begin {
        Ok(saturating_mul_u128(per_ts, duration as u128))
    } else {
        let remaining: u32 = if region.end >= current_timeslice {
            region.end - current_timeslice
        } else {
            0
        };
        Ok(saturating_mul_u128(per_ts, remaining as u128))
    }
}

/// The per-timeslice price is never negative.
pub proof fn lemma_per_timeslice_price_nonneg(ones: int, timeslice_price: u128)
    requires
        ones >= 0,
    ensures
        per_timeslice_price(ones, timeslice_price) >= 0,
{
    vstd::arithmetic::mul::lemma_mul_nonnegative(ones, FIXED_ACCURACY as int);
    lemma_div_pos_is_pos(ones * FIXED_ACCURACY, 80);
    vstd::arithmetic::mul::lemma_mul_nonnegative(occupancy_inner(ones), fixed_of_int(
        timeslice_price,
    ));
    lemma_div_pos_is_pos(occupancy_inner(ones) * fixed_of_int(timeslice_price),
        FIXED_ACCURACY as int);
    lemma_div_pos_is_pos(
        occupancy_inner(ones) * fixed_of_int(timeslice_price) / (FIXED_ACCURACY as int),
        FIXED_ACCURACY as int,
    );
}

/// Expiry monotonicity: for a fixed region and listed price, the ask price
/// is non-increasing as the current timeslice increases.
pub proof fn lemma_price_monotonic(region: Region, timeslice_price: u128, t1: Timeslice, t2: Timeslice)
    requires
        t1 <= t2,
    ensures
        region_price(region, timeslice_price, t2) <= region_price(region, timeslice_price, t1),
{
    let ptp = per_timeslice_price(region.mask.ones() as int, timeslice_price);
    lemma_per_timeslice_price_nonneg(region.mask.ones() as int, timeslice_price);
    let d1 = if (t1 as int) < region.begin {
        sat_sub(region.end as int, region.begin as int)
    } else {
        sat_sub(region.end as int, t1 as int)
    };
    let d2 = if (t2 as int) < region.begin {
        sat_sub(region.end as int, region.begin as int)
    } else {
        sat_sub(region.end as int, t2 as int)
    };
    assert(d2 <= d1);
    lemma_mul_inequality(d2, d1, ptp);
    lemma_mul_is_commutative(d2, ptp);
    lemma_mul_is_commutative(d1, ptp);
}

/// Expiry: once the current timeslice has reached the region's end, the ask
/// price is exactly zero.
pub proof fn lemma_price_expired(region: Region, timeslice_price: u128, now: Timeslice)
    requires
        now >= region.end,
        region.begin <= region.end,
    ensures
        region_price(region, timeslice_price, now) == 0,
{
}

/// Pre-activation flatness: before the region begins, the ask price does not
/// depend on the current timeslice.
pub proof fn lemma_price_flat_before_start(
    region: Region,
    timeslice_price: u128,
    t1: Timeslice,
    t2: Timeslice,
)
    requires
        (t1 as int) < region.begin,
        (t2 as int) < region.begin,
    ensures
        region_price(region, timeslice_price, t1) == region_price(region, timeslice_price, t2),
{
}

/// In the common range, where scaling the listed price into fixed point does
/// not saturate, the per-timeslice price is exactly `ones * price / 80`,
/// rounded down.
pub proof fn lemma_per_timeslice_price_exact(ones: int, timeslice_price: u128)
    requires
        0 <= ones <= 80,
        (timeslice_price as int) * (FIXED_ACCURACY as int) <= u128::MAX,
    ensures
        per_timeslice_price(ones, timeslice_price) == (ones * (timeslice_price as int)) / 80,
{
    let acc = FIXED_ACCURACY as int;
    let q = 12_500_000_000_000_000int;
    let price = timeslice_price as int;
    assert(acc == 80 * q);
    // The occupancy inner value is exactly ones * (acc / 80).
    assert(ones * acc == 80 * (ones * q)) by (nonlinear_arith)
        requires
            acc == 80 * q,
    ;
    lemma_div_multiples_vanish(ones * q, 80);
    assert(occupancy_inner(ones) == ones * q);
    // Scaling by the (unsaturated) fixed-point price and dividing by the
    // accuracy is exact as well.
    assert(fixed_of_int(timeslice_price) == price * acc);
    assert((ones * q) * (price * acc) == acc * (ones * q * price)) by (nonlinear_arith);
    lemma_div_multiples_vanish(ones * q * price, acc);
    assert(occupancy_inner(ones) * fixed_of_int(timeslice_price) / acc == ones * q * price);
    // Finally (s * q) / (80 * q) == s / 80 for s = ones * price.
    let s = ones * price;
    lemma_fundamental_div_mod(s, 80);
    assert(s * q == (80 * q) * (s / 80) + (s % 80) * q) by (nonlinear_arith)
        requires
            s == 80 * (s / 80) + s % 80,
    ;
    assert(0 <= (s % 80) * q < 80 * q) by (nonlinear_arith)
        requires
            0 <= s % 80 < 80,
            q > 0,
    ;
    assert(ones * q * price == s * q) by (nonlinear_arith)
        requires
            s == ones * price,
    ;
    lemma_fundamental_div_mod_converse(s * q, 80 * q, s / 80, (s % 80) * q);
}

/// Occupancy scaling: doubling the number of active mask bits, holding the
/// region window and the listed price fixed, doubles the pre-activation
/// price up to one rounding step per timeslice of the duration. The bounds
/// exclude the saturation range of the fixed-point scale and of the final
/// 128-bit price.
pub proof fn lemma_price_occupancy_scaling(
    r1: Region,
    r2: Region,
    timeslice_price: u128,
    now: Timeslice,
)
    requires
        r1.begin == r2.begin,
        r1.end == r2.end,
        r2.mask.ones() == 2 * r1.mask.ones(),
        r2.mask.ones() <= 80,
        (now as int) < r1.begin,
        (timeslice_price as int) * (FIXED_ACCURACY as int) <= u128::MAX,
        per_timeslice_price(r2.mask.ones() as int, timeslice_price) * sat_sub(
            r1.end as int,
            r1.begin as int,
        ) <= u128::MAX,
    ensures
        2 * region_price(r1, timeslice_price, now) <= region_price(r2, timeslice_price, now),
        region_price(r2, timeslice_price, now) <= 2 * region_price(r1, timeslice_price, now)
            + sat_sub(r1.end as int, r1.begin as int),
{
    let ones1 = r1.mask.ones() as int;
    let ones2 = r2.mask.ones() as int;
    let price = timeslice_price as int;
    let dur = sat_sub(r1.end as int, r1.begin as int);
    lemma_per_timeslice_price_exact(ones1, timeslice_price);
    lemma_per_timeslice_price_exact(ones2, timeslice_price);
    let ptp1 = per_timeslice_price(ones1, timeslice_price);
    let ptp2 = per_timeslice_price(ones2, timeslice_price);
    let s = ones1 * price;
    assert(ones2 * price == 2 * s) by (nonlinear_arith)
        requires
            ones2 == 2 * ones1,
            s == ones1 * price,
    ;
    // 2 * (s / 80) <= (2 * s) / 80 <= 2 * (s / 80) + 1.
    lemma_fundamental_div_mod(s, 80);
    vstd::arithmetic::mul::lemma_mul_nonnegative(ones1, price);
    if s % 80 < 40 {
        lemma_fundamental_div_mod_converse(2 * s, 80, 2 * (s / 80), 2 * (s % 80));
    } else {
        lemma_fundamental_div_mod_converse(2 * s, 80, 2 * (s / 80) + 1, 2 * (s % 80) - 80);
    }
    assert(2 * ptp1 <= ptp2 <= 2 * ptp1 + 1);
    // Neither price saturates, so both are plain products with the duration.
    lemma_per_timeslice_price_nonneg(ones1, timeslice_price);
    lemma_per_timeslice_price_nonneg(ones2, timeslice_price);
    lemma_mul_inequality(ptp1, ptp2, dur);
    lemma_mul_is_commutative(ptp1, dur);
    lemma_mul_is_commutative(ptp2, dur);
    assert(ptp1 * dur <= ptp2 * dur);
    assert(region_price(r1, timeslice_price, now) == ptp1 * dur);
    assert(region_price(r2, timeslice_price, now) == ptp2 * dur);
    assert(2 * (ptp1 * dur) <= ptp2 * dur <= 2 * (ptp1 * dur) + dur) by (nonlinear_arith)
        requires
            2 * ptp1 <= ptp2 <= 2 * ptp1 + 1,
            dur >= 0,
    ;
}

} // verus!
