//! Capability interfaces to the host chain, used only for state reads.
//! Implementations live outside the library: on chain they are backed by a
//! chain extension, in tests by an in-memory stand-in.

use crate::coretime::RawRegionId;
use crate::uniques::CollectionDetails;
use crate::uniques::CollectionId;
use crate::uniques::ItemDetails;
use crate::AccountId;
use crate::BlockNumber;
use vstd::prelude::*;

verus! {

/// Error a uniques-pallet read can report.
#[derive(PartialEq, Eq, Copy, Clone, Debug)]
pub enum UniquesError {
    /// Origin caller is not supported.
    OriginCannotBeCaller,
    /// Unknown error.
    RuntimeError,
    /// Unknown status code.
    UnknownStatusCode,
    /// Encountered unexpected invalid encoding.
    InvalidScaleEncoding,
}

impl UniquesError {
    /// Decodes the host's status code convention: 0 is success, 98 and 99
    /// are the two known failures, anything else is unknown.
    pub fn from_status_code(status_code: u32) -> (r: Result<(), Self>)
        ensures
            r == match status_code {
                0u32 => Ok::<(), UniquesError>(()),
                98u32 => Err(UniquesError::OriginCannotBeCaller),
                99u32 => Err(UniquesError::RuntimeError),
                _ => Err(UniquesError::UnknownStatusCode),
            },
    {
        match status_code {
            0 => Ok(()),
            98 => Err(Self::OriginCannotBeCaller),
            99 => Err(Self::RuntimeError),
            _ => Err(Self::UnknownStatusCode),
        }
    }
}

/// Reads from the uniques pallet that the registry needs. Only the functions
/// essential for the registry are present; the underlying host is likely to
/// implement many additional ones.
pub trait UniquesExtension {
    /// The owner of the specific item.
    fn owner(&self, collection_id: CollectionId, item_id: RawRegionId) -> Result<
        Option<AccountId>,
        UniquesError,
    >;

    /// All items owned by `who`.
    fn owned(&self, who: AccountId) -> Result<Vec<(CollectionId, RawRegionId)>, UniquesError>;

    /// Returns the details of a collection.
    fn collection(&self, collection_id: CollectionId) -> Result<
        Option<CollectionDetails>,
        UniquesError,
    >;

    /// Returns the details of an item within a collection.
    fn item(&self, collection_id: CollectionId, item_id: RawRegionId) -> Result<
        Option<ItemDetails>,
        UniquesError,
    >;
}

/// Error a relay-chain block number read can report.
#[derive(PartialEq, Eq, Copy, Clone, Debug)]
pub enum BlockNumberProviderError {
    /// Origin caller is not supported.
    OriginCannotBeCaller,
    /// Unknown error.
    RuntimeError,
    /// Unknown status code.
    UnknownStatusCode,
    /// Encountered unexpected invalid encoding.
    InvalidScaleEncoding,
}

impl BlockNumberProviderError {
    /// Decodes the host's status code convention: 0 is success, 98 and 99
    /// are the two known failures, anything else is unknown.
    pub fn from_status_code(status_code: u32) -> (r: Result<(), Self>)
        ensures
            r == match status_code {
                0u32 => Ok::<(), BlockNumberProviderError>(()),
                98u32 => Err(BlockNumberProviderError::OriginCannotBeCaller),
                99u32 => Err(BlockNumberProviderError::RuntimeError),
                _ => Err(BlockNumberProviderError::UnknownStatusCode),
            },
    {
        match status_code {
            0 => Ok(()),
            98 => Err(Self::OriginCannotBeCaller),
            99 => Err(Self::RuntimeError),
            _ => Err(Self::UnknownStatusCode),
        }
    }
}

/// The ledger capability of the host chain: the relay-chain block counter,
/// from which the current timeslice is derived, and the native balance
/// transfer used to move payments between accounts. The market states what
/// holds of every outcome of these calls, so nothing about an implementation
/// is trusted.
pub trait Ledger {
    /// The current relay chain block number.
    fn relay_chain_block_number(&self) -> Result<BlockNumber, BlockNumberProviderError>;

    /// Moves `amount` of the native balance to `to`; `true` on success.
    fn transfer(&mut self, to: AccountId, amount: u128) -> bool;
}

} // verus!
