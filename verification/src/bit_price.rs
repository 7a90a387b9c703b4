//! The earlier, per-bit pricing scheme: the listed price names the value of a
//! single core mask bit, and decay consumes mask bits in index order as the
//! region's activity window elapses, so wasting inactive bits costs nothing.
//!
//! The current timeslice is projected from a reference moment the lister
//! supplied at listing time, rather than read from the ledger. The
//! per-timeslice model in `price` supersedes this scheme; it is kept for the
//! listings that were made under it.

use crate::coretime::Region;
use crate::coretime::Timeslice;
use crate::coretime::CORE_MASK_BIT_LEN;
use crate::coretime::TIMESLICE_DURATION_IN_BLOCKS;
use crate::fixed_point::fixed_from_rational;
use crate::fixed_point::FIXED_ACCURACY;
use crate::market::MarketError;
use crate::price::sat_mul;
use crate::price::saturating_mul_u128;
use crate::AccountId;
use crate::Balance;
use crate::BlockNumber;
use crate::Version;
use vstd::arithmetic::div_mod::lemma_div_is_ordered;
use vstd::arithmetic::div_mod::lemma_div_is_ordered_by_denominator;
use vstd::arithmetic::mul::lemma_mul_inequality;
use vstd::prelude::*;

verus! {

/// A reference point in time, asserted by the lister: "the current timeslice
/// is `timeslice` as of block `block_number`".
#[derive(Clone, Copy, Debug, PartialEq, Eq, Structural)]
pub struct Moment {
    /// The relay chain block number of the reference point.
    pub block_number: BlockNumber,
    /// The timeslice the lister asserts for that block.
    pub timeslice: Timeslice,
}

/// The sale record of the per-bit scheme, carrying the region descriptor and
/// the reference moment alongside the price parameter.
#[derive(Clone, Copy, Debug, PartialEq, Eq)]
pub struct Listing {
    /// The account selling the specific region.
    pub seller: AccountId,
    /// The region listed on sale.
    pub region: Region,
    /// The price for the smallest unit of the region: a single set bit of
    /// its core mask, i.e. 1/80th of the total price.
    pub bit_price: Balance,
    /// The account receiving the payment from the sale.
    pub sale_recipient: AccountId,
    /// The metadata version of the region listed on sale.
    pub metadata_version: Version,
    /// The reference moment from which later price reads project the
    /// current timeslice.
    pub listed_at: Moment,
}

/// The timeslice that a block number projects to from the listing's
/// reference moment.
pub open spec fn projected_timeslice(listing: Listing, current_block_number: BlockNumber) -> int {
    listing.listed_at.timeslice + (current_block_number - listing.listed_at.block_number) / (
    TIMESLICE_DURATION_IN_BLOCKS as int)
}

/// The first mask bit index that decay has not yet consumed, after `wasted`
/// of `duration` timeslices have elapsed: the elapsed fraction of the mask
/// width, rounded down.
pub open spec fn decay_bit_index(wasted: int, duration: int) -> int {
    ((wasted * FIXED_ACCURACY) / duration) * (CORE_MASK_BIT_LEN as int) / (FIXED_ACCURACY as int)
}

/// The number of mask bits that still carry value after decay.
pub open spec fn decayed_ones(region: Region, wasted: int, duration: int) -> int {
    let index = decay_bit_index(wasted, duration);
    if index < 80 {
        region.mask.spec_ones(index, 80) as int
    } else {
        0
    }
}

/// Computes the ask price of a listing under the per-bit scheme at the given
/// block number. Before the region begins every set bit carries full value;
/// afterwards decay consumes bits in index order, proportionally to the
/// elapsed share of the region's window. A window of zero duration cannot be
/// priced once it has begun: that surfaces as `ArithmeticError`.
pub fn calculate_region_price(current_block_number: BlockNumber, listing: Listing) -> (r: Result<
    Balance,
    MarketError,
>)
    requires
        current_block_number >= listing.listed_at.block_number,
        projected_timeslice(listing, current_block_number) <= u32::MAX,
    ensures
        projected_timeslice(listing, current_block_number) < listing.region.begin ==> r
            == Ok::<Balance, MarketError>(
            (sat_mul(listing.bit_price as int, listing.region.mask.ones() as int)) as u128,
        ),
        projected_timeslice(listing, current_block_number) >= listing.region.begin
            && listing.region.end <= listing.region.begin ==> r == Err::<Balance, MarketError>(
            MarketError::ArithmeticError,
        ),
        projected_timeslice(listing, current_block_number) >= listing.region.begin
            && listing.region.end > listing.region.begin ==> r == Ok::<Balance, MarketError>(
            (sat_mul(
                listing.bit_price as int,
                decayed_ones(
                    listing.region,
                    projected_timeslice(listing, current_block_number) - listing.region.begin,
                    listing.region.end - listing.region.begin,
                ),
            )) as u128,
        ),
{
    let elapsed: u32 = (current_block_number - listing.listed_at.block_number)
        / TIMESLICE_DURATION_IN_BLOCKS;
    let current_timeslice: u32 = listing.listed_at.timeslice + elapsed;
    let ones = listing.region.mask.count_ones();
    if current_timeslice < listing.region.begin {
        // The region is not yet active, hence the price has not yet
        // decreased.
        return Ok(saturating_mul_u128(listing.bit_price, ones as u128));
    }
    let wasted: u32 = current_timeslice - listing.region.begin;
    let duration: u32 = if listing.region.end >= listing.region.begin {
        listing.region.end - listing.region.begin
    } else {
        0
    };
    proof {
        if duration > 0 {
            lemma_mul_inequality(wasted as int, u32::MAX as int, FIXED_ACCURACY as int);
            lemma_div_is_ordered_by_denominator(
                (wasted as int) * (FIXED_ACCURACY as int),
                1,
                duration as int,
            );
            lemma_div_is_ordered(
                (wasted as int) * (FIXED_ACCURACY as int),
                (u32::MAX as int) * (FIXED_ACCURACY as int),
                duration as int,
            );
        }
    }
    let ratio_inner: u128 = match fixed_from_rational(wasted as u128, duration as u128) {
        Some(v) => v,
        None => {
            return Err(MarketError::ArithmeticError);
        },
    };
    let index128: u128 = (ratio_inner * (CORE_MASK_BIT_LEN as u128)) / FIXED_ACCURACY;
    let index: u32 = if index128 < 80 {
        index128 as u32
    } else {
        80
    };
    let remaining_ones = listing.region.mask.count_ones_from(index);
    Ok(saturating_mul_u128(listing.bit_price, remaining_ones as u128))
}

} // verus!
