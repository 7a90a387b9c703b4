//! A verified marketplace for time-bound "Coretime region" assets.
//!
//! A region is the right to use a compute core over a bounded range of
//! timeslices, at a regularity pattern given by an 80-bit core mask. The
//! marketplace lets a region owner list such a region for sale at a price
//! scaled to its remaining duration and occupancy, and lets a buyer purchase
//! it atomically against an asset registry that escrows the underlying
//! region.
//!
//! The heart of the library is the pricing model (`price`, with the earlier
//! scheme in `bit_price`) and the listing state machine (`market`); the
//! registry itself lives in `xc_regions`, over the primitives of `coretime`
//! and `uniques`. Host-chain reads and payments enter through the
//! capabilities declared in `extension`.

use vstd::prelude::*;

pub mod bit_price;
pub mod coretime;
pub mod extension;
pub mod fixed_point;
pub mod market;
pub mod price;
pub mod uniques;
pub mod xc_regions;

verus! {

/// Balance of an account.
pub type Balance = u128;

/// The type used for versioning region metadata.
pub type Version = u32;

/// Relay-chain block number.
pub type BlockNumber = u32;

/// An account on the host chain, reduced to its identifying value.
pub type AccountId = u32;

} // verus!
