//! Types mirroring the ledger's `Uniques` asset pallet: the calls the
//! registry dispatches to move true ownership, and the records it reads back.

use crate::coretime::RawRegionId;
use crate::AccountId;
use crate::Balance;
use vstd::prelude::*;

verus! {

/// The type used to identify collections in the underlying uniques pallet.
pub type CollectionId = u32;

/// A call into the uniques pallet, dispatched by the registry to move or
/// approve true ownership of a region.
#[derive(Clone, Copy, Debug, PartialEq, Eq)]
pub enum UniquesCall {
    Transfer { collection: CollectionId, item: RawRegionId, dest: AccountId },
    ApproveTransfer { collection: CollectionId, item: RawRegionId, delegate: AccountId },
    CancelApproval {
        collection: CollectionId,
        item: RawRegionId,
        maybe_check_delegate: Option<AccountId>,
    },
}

/// A runtime call the registry can ask the ledger to dispatch.
#[derive(Clone, Copy, Debug, PartialEq, Eq)]
pub enum RuntimeCall {
    Uniques(UniquesCall),
}

/// The details of a collection, as the uniques pallet reports them.
#[derive(Clone, Copy, Debug, PartialEq, Eq)]
pub struct CollectionDetails {
    /// Can change `owner`, `issuer`, `freezer` and `admin` accounts.
    pub owner: AccountId,
    /// Can mint tokens.
    pub issuer: AccountId,
    /// Can thaw tokens, force transfers and burn tokens from any account.
    pub admin: AccountId,
    /// Can freeze tokens.
    pub freezer: AccountId,
    /// The total balance deposited for the all storage associated with this
    /// collection.
    pub total_deposit: Balance,
    /// If `true`, then no deposit is needed to hold items of this collection.
    pub free_holding: bool,
    /// The total number of outstanding items of this collection.
    pub items: u32,
    /// The total number of outstanding item metadata of this collection.
    pub item_metadatas: u32,
    /// The total number of attributes for this collection.
    pub attributes: u32,
    /// Whether the collection is frozen for non-admin transfers.
    pub is_frozen: bool,
}

/// Information concerning the ownership of a single unique item.
#[derive(Clone, Copy, Debug, PartialEq, Eq)]
pub struct ItemDetails {
    /// The owner of this item.
    pub owner: AccountId,
    /// The approved transferrer of this item, if one is set.
    pub approved: Option<AccountId>,
    /// Whether the item can be transferred or not.
    pub is_frozen: bool,
    /// The amount held in the pallet's default account for this item.
    /// Free-hold items will have this as zero.
    pub deposit: Balance,
}

} // verus!
