//! The asset registry: a wrapper contract that escrows a region of the
//! underlying uniques collection and mints a wrapped token for it, keeping
//! the region's descriptor and a metadata version alongside.
//!
//! The registry here is backed by in-memory state standing for the uniques
//! collection, as the contract's integration configuration does; on chain
//! the same reads and transfers go through the host's chain extension and
//! runtime calls, which live outside this library.

use crate::coretime::spec_region_id_of;
use crate::coretime::RawRegionId;
use crate::coretime::Region;
use crate::coretime::RegionId;
use crate::uniques::CollectionId;
use crate::uniques::ItemDetails;
use crate::AccountId;
use crate::Balance;
use crate::Version;
use std::collections::HashMap;
use vstd::prelude::*;

verus! {

broadcast use vstd::std_specs::hash::group_hash_axioms;

/// The collection id of the underlying region collection.
pub const REGIONS_COLLECTION_ID: u32 = 42;

/// The full identifier of a region within the uniques pallet.
pub fn region_id(id: RawRegionId) -> (r: (CollectionId, RawRegionId))
    ensures
        r.0 == REGIONS_COLLECTION_ID,
        r.1 == id,
{
    (REGIONS_COLLECTION_ID, id)
}

/// A token identifier of the wrapped-asset interface. Regions are identified
/// by the `U128` shape; the other shapes exist for interface compatibility
/// and never denote a region.
#[derive(Clone, Debug, PartialEq, Eq)]
pub enum Id {
    U8(u8),
    U16(u16),
    U32(u32),
    U64(u64),
    U128(u128),
    Bytes(Vec<u8>),
}

/// Error of the wrapped-asset interface.
#[derive(Clone, Debug, PartialEq, Eq)]
pub enum PSP34Error {
    /// Custom error type for cases where the implementation adds its own
    /// restrictions.
    Custom(String),
    /// Returned when the owner approves themselves.
    SelfApprove,
    /// Returned when the caller is not allowed to act on the token.
    NotApproved,
    /// Returned when a token already exists.
    TokenExists,
    /// Returned when a token does not exist.
    TokenNotExists,
    /// Returned when a safe transfer check fails.
    SafeTransferCheckFailed,
}

/// Error of the registry.
#[derive(Clone, Debug, PartialEq, Eq)]
pub enum XcRegionsError {
    /// The provided identifier is not a valid region id.
    InvalidRegionId,
    /// The metadata is either already initialized or the caller isn't the
    /// region owner.
    CannotInitialize,
    /// The region metadata cannot be removed as long as the underlying
    /// region continues to exist on this chain.
    CannotRemove,
    /// No metadata was found for the region.
    MetadataNotFound,
    /// The provided metadata doesn't match with the metadata extracted from
    /// the region id.
    InvalidMetadata,
    /// The associated metadata version was not found.
    VersionNotFound,
    /// An error occured in the underlying runtime.
    RuntimeError,
    /// A wrapped-asset error occured.
    Psp34(PSP34Error),
}

impl XcRegionsError {
    /// A short description of the error, one per variant.
    pub fn message(&self) -> &'static str {
        match self {
            XcRegionsError::InvalidRegionId => "InvalidRegionId",
            XcRegionsError::CannotInitialize => "CannotInitialize",
            XcRegionsError::CannotRemove => "CannotRemove",
            XcRegionsError::MetadataNotFound => "MetadataNotFound",
            XcRegionsError::InvalidMetadata => "InvalidMetadata",
            XcRegionsError::VersionNotFound => "VersionNotFound",
            XcRegionsError::RuntimeError => "RuntimeError",
            XcRegionsError::Psp34(_) => "Psp34",
        }
    }
}

/// A region's descriptor together with the metadata version it was read at,
/// intended for client-side verification.
#[derive(Clone, Copy, Debug, PartialEq, Eq)]
pub struct VersionedRegion {
    pub version: Version,
    pub region: Region,
}

/// The registry's metadata interface. The market consumes it as a
/// capability: no behaviour of an implementation is assumed beyond its
/// signature, so everything the market proves holds for every
/// implementation.
pub trait RegionMetadata {
    /// Establishes the metadata of a region the caller owns, escrowing the
    /// underlying region and minting a wrapped token for the caller.
    fn init(&mut self, caller: AccountId, contract: AccountId, id: RawRegionId, metadata: Region)
        -> Result<RegionInitialized, XcRegionsError>;

    /// Retrieves the current metadata of a region with its version.
    fn get_metadata(&self, id: RawRegionId) -> Result<VersionedRegion, XcRegionsError>;

    /// Removes the metadata of a region the caller owns, burning the
    /// wrapped token and returning the underlying region.
    fn remove(&mut self, caller: AccountId, id: RawRegionId) -> Result<
        RegionRemoved,
        XcRegionsError,
    >;
}

/// The wrapped-asset interface of the registry, as far as the market uses
/// it. Like `RegionMetadata`, it is consumed as a capability with no trusted
/// behaviour.
pub trait Psp34 {
    /// The identifier of the wrapped-asset collection.
    fn collection_id(&self) -> Id;

    /// The number of wrapped tokens `owner` holds.
    fn balance_of(&self, owner: AccountId) -> u32;

    /// The owner of the wrapped token `id`, if it exists.
    fn owner_of(&self, id: Id) -> Option<AccountId>;

    /// Whether `operator` may act on `id` (or on all of `owner`'s tokens,
    /// when `id` is `None`) on behalf of `owner`.
    fn allowance(&self, owner: AccountId, operator: AccountId, id: Option<Id>) -> bool;

    /// Approves or revokes `operator` for `id` (or for all of the caller's
    /// tokens, when `id` is `None`).
    fn approve(
        &mut self,
        caller: AccountId,
        operator: AccountId,
        id: Option<Id>,
        approved: bool,
    ) -> Result<(), PSP34Error>;

    /// Transfers the wrapped token `id` to `to`; the caller must be its
    /// owner or an approved operator.
    fn transfer(&mut self, caller: AccountId, to: AccountId, id: Id, data: Vec<u8>) -> Result<
        (),
        PSP34Error,
    >;

    /// The total number of wrapped tokens.
    fn total_supply(&self) -> Balance;
}

/// Event emitted when a region's metadata is initialized.
#[derive(Clone, Copy, Debug, PartialEq, Eq)]
pub struct RegionInitialized {
    /// The identifier of the region that got initialized.
    pub region_id: RawRegionId,
    /// The associated metadata.
    pub metadata: Region,
    /// The version of the metadata. This is incremented by the registry each
    /// time the same region is initialized.
    pub version: Version,
}

/// Event emitted when a region's metadata is removed.
#[derive(Clone, Copy, Debug, PartialEq, Eq)]
pub struct RegionRemoved {
    /// The identifier of the region that got removed.
    pub region_id: RawRegionId,
}

/// Packs an owner/operator pair into a single approval key.
pub open spec fn spec_account_pair(owner: AccountId, operator: AccountId) -> u64 {
    ((owner as u64) << 32) | (operator as u64)
}

fn account_pair(owner: AccountId, operator: AccountId) -> (r: u64)
    ensures
        r == spec_account_pair(owner, operator),
{
    ((owner as u64) << 32) | (operator as u64)
}

/// The metadata version an initialization bumps to: the saturated successor
/// of the stored version, or zero if the region was never initialized.
pub open spec fn spec_next_version(versions: Map<RawRegionId, Version>, id: RawRegionId) -> Version {
    if versions.contains_key(id) {
        if versions[id] < u32::MAX {
            (versions[id] + 1) as u32
        } else {
            versions[id]
        }
    } else {
        0
    }
}

/// The registry state. The `items` and `account` maps stand for the
/// underlying uniques collection, as the contract's integration
/// configuration keeps them; the remaining maps are the wrapped-token
/// bookkeeping.
pub struct XcRegions {
    /// A mapping that links a region id to its corresponding metadata.
    pub regions: HashMap<RawRegionId, Region>,
    /// A mapping that keeps track of the metadata version for each region.
    ///
    /// This version gets incremented for a region each time it gets
    /// re-initialized.
    pub metadata_versions: HashMap<RawRegionId, Version>,
    /// The items of the underlying region collection.
    pub items: HashMap<RawRegionId, ItemDetails>,
    /// The items of the underlying collection owned by each account.
    pub account: HashMap<AccountId, Vec<(CollectionId, RawRegionId)>>,
    /// The owner of each wrapped token.
    pub wrapped_owner: HashMap<RawRegionId, AccountId>,
    /// The number of wrapped tokens each account holds.
    pub balances: HashMap<AccountId, u32>,
    /// The operator approved for a single wrapped token.
    pub token_approvals: HashMap<RawRegionId, AccountId>,
    /// Owner/operator pairs approved for all of the owner's wrapped tokens.
    pub operator_approvals: HashMap<u64, bool>,
}

impl XcRegions {
    /// The registry's invariant: a region has metadata stored exactly when a
    /// wrapped token for it exists, and stored metadata always has a
    /// version.
    pub open spec fn wf(&self) -> bool {
        &&& forall|id: RawRegionId|
            #[trigger] self.regions@.contains_key(id) ==> self.metadata_versions@.contains_key(id)
        &&& forall|id: RawRegionId|
            #[trigger] self.regions@.contains_key(id) <==> self.wrapped_owner@.contains_key(id)
    }

    /// Creates an empty registry.
    pub fn new() -> (r: Self)
        ensures
            r.wf(),
            r.regions@ == Map::<RawRegionId, Region>::empty(),
            r.metadata_versions@ == Map::<RawRegionId, Version>::empty(),
            r.items@ == Map::<RawRegionId, ItemDetails>::empty(),
            r.account@ == Map::<AccountId, Vec<(CollectionId, RawRegionId)>>::empty(),
            r.wrapped_owner@ == Map::<RawRegionId, AccountId>::empty(),
            r.balances@ == Map::<AccountId, u32>::empty(),
            r.token_approvals@ == Map::<RawRegionId, AccountId>::empty(),
            r.operator_approvals@ == Map::<u64, bool>::empty(),
    {
        XcRegions {
            regions: HashMap::new(),
            metadata_versions: HashMap::new(),
            items: HashMap::new(),
            account: HashMap::new(),
            wrapped_owner: HashMap::new(),
            balances: HashMap::new(),
            token_approvals: HashMap::new(),
            operator_approvals: HashMap::new(),
        }
    }

    /// Returns whether the region exists on this chain or not.
    pub fn uniques_exists(&self, region_id: RawRegionId) -> (r: bool)
        ensures
            r == self.items@.contains_key(region_id),
    {
        self.uniques_item(region_id).is_some()
    }

    /// Returns the details of an item within the region collection.
    pub fn uniques_item(&self, item_id: RawRegionId) -> (r: Option<ItemDetails>)
        ensures
            r == if self.items@.contains_key(item_id) {
                Some(self.items@[item_id])
            } else {
                None::<ItemDetails>
            },
    {
        match self.items.get(&item_id) {
            Some(details) => Some(*details),
            None => None,
        }
    }

    /// The owner of the specific item of the region collection.
    pub fn uniques_owner(&self, region_id: RawRegionId) -> (r: Option<AccountId>)
        ensures
            r == if self.items@.contains_key(region_id) {
                Some(self.items@[region_id].owner)
            } else {
                None::<AccountId>
            },
    {
        match self.items.get(&region_id) {
            Some(details) => Some(details.owner),
            None => None,
        }
    }

    /// Mints an item of the region collection to `owner`. This stands in for
    /// the uniques pallet's own mint; it fails when the item already exists.
    pub fn mint(&mut self, id: (CollectionId, RawRegionId), owner: AccountId) -> (r: Result<
        (),
        &'static str,
    >)
        requires
            id.0 == REGIONS_COLLECTION_ID,
        ensures
            r is Ok <==> !old(self).items@.contains_key(id.1),
            r is Err ==> *final(self) == *old(self),
            r is Ok ==> {
                &&& final(self).items@ == old(self).items@.insert(
                    id.1,
                    ItemDetails { owner, approved: None, is_frozen: false, deposit: 0 },
                )
                &&& final(self).account@.contains_key(owner)
                &&& final(self).account@[owner]@ == (if old(self).account@.contains_key(owner) {
                    old(self).account@[owner]@
                } else {
                    Seq::<(CollectionId, RawRegionId)>::empty()
                }).push(id)
                &&& forall|who: AccountId|
                    who != owner ==> (#[trigger] final(self).account@.contains_key(who) <==> old(self).account@.contains_key(who)) && (old(self).account@.contains_key(who)
                        ==> final(self).account@[who] == old(self).account@[who])
            },
            final(self).regions@ == old(self).regions@,
            final(self).metadata_versions@ == old(self).metadata_versions@,
            final(self).wrapped_owner@ == old(self).wrapped_owner@,
            final(self).balances@ == old(self).balances@,
            final(self).token_approvals@ == old(self).token_approvals@,
            final(self).operator_approvals@ == old(self).operator_approvals@,
    {
        if self.items.contains_key(&id.1) {
            return Err("Item already exists");
        }
        self.items.insert(
            id.1,
            ItemDetails { owner, approved: None, is_frozen: false, deposit: 0 },
        );
        let mut owned: Vec<(CollectionId, RawRegionId)> = Vec::new();
        match self.account.get(&owner) {
            Some(list) => {
                let ghost src = list@;
                let mut i: usize = 0;
                while i < list.len()
                    invariant
                        i <= list.len(),
                        src == list@,
                        owned@ == src.subrange(0, i as int),
                    decreases list.len() - i,
                {
                    owned.push(list[i]);
                    proof {
                        assert(owned@ =~= src.subrange(0, i + 1 as int));
                    }
                    i = i + 1;
                }
                proof {
                    assert(owned@ =~= src);
                }
            },
            None => {},
        }
        owned.push(id);
        self.account.insert(owner, owned);
        Ok(())
    }

    /// Burns an item of the region collection, standing in for the uniques
    /// pallet's own burn; it fails when the item does not exist.
    pub fn burn(&mut self, id: (CollectionId, RawRegionId)) -> (r: Result<(), &'static str>)
        requires
            id.0 == REGIONS_COLLECTION_ID,
        ensures
            r is Ok <==> old(self).items@.contains_key(id.1),
            r is Err ==> *final(self) == *old(self),
            r is Ok ==> {
                let owner = old(self).items@[id.1].owner;
                let kept = (if old(self).account@.contains_key(owner) {
                    old(self).account@[owner]@
                } else {
                    Seq::<(CollectionId, RawRegionId)>::empty()
                }).filter(|x: (CollectionId, RawRegionId)| x != id);
                &&& final(self).items@ == old(self).items@.remove(id.1)
                &&& (kept.len() == 0 ==> !final(self).account@.contains_key(owner))
                &&& (kept.len() > 0 ==> final(self).account@.contains_key(owner) && final(self).account@[owner]@ == kept)
                &&& (forall|who: AccountId|
                    who != old(self).items@[id.1].owner ==> (#[trigger] final(self).account@.contains_key(
                        who,
                    ) <==> old(self).account@.contains_key(who)) && (old(self).account@.contains_key(who) ==> final(self).account@[who] == old(self).account@[who]))
            },
            final(self).regions@ == old(self).regions@,
            final(self).metadata_versions@ == old(self).metadata_versions@,
            final(self).wrapped_owner@ == old(self).wrapped_owner@,
            final(self).balances@ == old(self).balances@,
            final(self).token_approvals@ == old(self).token_approvals@,
            final(self).operator_approvals@ == old(self).operator_approvals@,
    {
        let owner = match self.items.get(&id.1) {
            Some(details) => details.owner,
            None => {
                return Err("Item not found");
            },
        };
        let mut owned: Vec<(CollectionId, RawRegionId)> = Vec::new();
        match self.account.get(&owner) {
            Some(list) => {
                let ghost src = list@;
                let mut i: usize = 0;
                while i < list.len()
                    invariant
                        i <= list.len(),
                        src == list@,
                        owned@ == src.subrange(0, i as int).filter(
                            |x: (CollectionId, RawRegionId)| x != id,
                        ),
                    decreases list.len() - i,
                {
                    let x = list[i];
                    proof {
                        let pred = |x: (CollectionId, RawRegionId)| x != id;
                        let t = src.subrange(0, i as int);
                        let t1 = src.subrange(0, i + 1 as int);
                        assert(t1 =~= t.push(src[i as int]));
                        reveal(Seq::filter);
                        assert(t1.drop_last() =~= t);
                        assert(t1.filter(pred) == if pred(src[i as int]) {
                            t.filter(pred).push(src[i as int])
                        } else {
                            t.filter(pred)
                        });
                    }
                    if !(x.0 == id.0 && x.1 == id.1) {
                        owned.push(x);
                    }
                    i = i + 1;
                }
                proof {
                    assert(src.subrange(0, list@.len() as int) =~= src);
                }
            },
            None => {},
        }
        proof {
            reveal(Seq::filter);
            assert(owned@ == (if old(self).account@.contains_key(owner) {
                old(self).account@[owner]@
            } else {
                Seq::<(CollectionId, RawRegionId)>::empty()
            }).filter(|x: (CollectionId, RawRegionId)| x != id));
        }
        if owned.is_empty() {
            self.account.remove(&owner);
        } else {
            self.account.insert(owner, owned);
        }
        self.items.remove(&id.1);
        Ok(())
    }

    /// Moves the underlying item to `dest`. On chain this dispatches a
    /// transfer through the uniques pallet and surfaces any failure as
    /// `RuntimeError`; here the pallet's state is the in-memory collection.
    fn transfer_underlying(&mut self, item: RawRegionId, dest: AccountId) -> (r: Result<
        (),
        XcRegionsError,
    >)
        ensures
            r is Ok <==> old(self).items@.contains_key(item),
            r is Err ==> *final(self) == *old(self) && r == Err::<(), XcRegionsError>(
                XcRegionsError::RuntimeError,
            ),
            r is Ok ==> final(self).items@ == old(self).items@.insert(
                item,
                ItemDetails { owner: dest, approved: None, is_frozen: false, deposit: 0 },
            ),
            final(self).regions@ == old(self).regions@,
            final(self).metadata_versions@ == old(self).metadata_versions@,
            final(self).wrapped_owner@ == old(self).wrapped_owner@,
            final(self).balances@ == old(self).balances@,
            final(self).token_approvals@ == old(self).token_approvals@,
            final(self).operator_approvals@ == old(self).operator_approvals@,
    {
        match self.burn((REGIONS_COLLECTION_ID, item)) {
            Ok(_) => {},
            Err(_) => {
                return Err(XcRegionsError::RuntimeError);
            },
        }
        match self.mint((REGIONS_COLLECTION_ID, item), dest) {
            Ok(_) => {},
            Err(_) => {
                proof {
                    assert(false);
                }
                return Err(XcRegionsError::RuntimeError);
            },
        }
        proof {
            assert(self.items@ =~= old(self).items@.insert(
                item,
                ItemDetails { owner: dest, approved: None, is_frozen: false, deposit: 0 },
            ));
        }
        Ok(())
    }

    /// Mints the wrapped token `id` to `to`.
    fn mint_wrapped_to(&mut self, to: AccountId, id: RawRegionId) -> (r: Result<(), PSP34Error>)
        ensures
            r is Ok <==> !old(self).wrapped_owner@.contains_key(id),
            r is Err ==> *final(self) == *old(self) && r == Err::<(), PSP34Error>(PSP34Error::TokenExists),
            r is Ok ==> {
                &&& final(self).wrapped_owner@ == old(self).wrapped_owner@.insert(id, to)
                &&& final(self).balances@ == old(self).balances@.insert(
                    to,
                    spec_increment_balance(old(self).balances@, to),
                )
            },
            final(self).regions@ == old(self).regions@,
            final(self).metadata_versions@ == old(self).metadata_versions@,
            final(self).items@ == old(self).items@,
            final(self).account@ == old(self).account@,
            final(self).token_approvals@ == old(self).token_approvals@,
            final(self).operator_approvals@ == old(self).operator_approvals@,
    {
        if self.wrapped_owner.contains_key(&id) {
            return Err(PSP34Error::TokenExists);
        }
        self.wrapped_owner.insert(id, to);
        let balance = match self.balances.get(&to) {
            Some(b) => *b,
            None => 0,
        };
        let new_balance = if balance < u32::MAX {
            balance + 1
        } else {
            balance
        };
        self.balances.insert(to, new_balance);
        Ok(())
    }

    /// Burns the wrapped token `id` held by `from`.
    fn burn_wrapped_from(&mut self, from: AccountId, id: RawRegionId) -> (r: Result<
        (),
        PSP34Error,
    >)
        ensures
            r is Ok <==> old(self).wrapped_owner@.contains_key(id),
            r is Err ==> *final(self) == *old(self) && r == Err::<(), PSP34Error>(
                PSP34Error::TokenNotExists,
            ),
            r is Ok ==> {
                &&& final(self).wrapped_owner@ == old(self).wrapped_owner@.remove(id)
                &&& final(self).balances@ == old(self).balances@.insert(
                    from,
                    spec_decrement_balance(old(self).balances@, from),
                )
                &&& final(self).token_approvals@ == old(self).token_approvals@.remove(id)
            },
            final(self).regions@ == old(self).regions@,
            final(self).metadata_versions@ == old(self).metadata_versions@,
            final(self).items@ == old(self).items@,
            final(self).account@ == old(self).account@,
            final(self).operator_approvals@ == old(self).operator_approvals@,
    {
        if !self.wrapped_owner.contains_key(&id) {
            return Err(PSP34Error::TokenNotExists);
        }
        self.wrapped_owner.remove(&id);
        self.token_approvals.remove(&id);
        let balance = match self.balances.get(&from) {
            Some(b) => *b,
            None => 0,
        };
        let new_balance = if balance > 0 {
            balance - 1
        } else {
            0
        };
        self.balances.insert(from, new_balance);
        Ok(())
    }
}

impl RegionMetadata for XcRegions {
    /// A function for minting a wrapped region and initializing its
    /// metadata. It can only be called if the specified region exists on
    /// this chain and the caller is the actual owner of the region.
    ///
    /// This function conducts a sanity check to verify that the metadata
    /// derived from the raw identifier aligns with the respective components
    /// of the metadata supplied through the `metadata` argument, so that a
    /// spoofed descriptor can never be recorded.
    ///
    /// If this is not the first time that this region is initialized, the
    /// metadata version gets incremented.
    ///
    /// The underlying region is transferred to the registry (`contract`),
    /// and in response a wrapped token is minted for the caller. On success
    /// the `RegionInitialized` event is returned for the caller to emit; on
    /// any error the registry's state is unchanged.
    fn init(
        &mut self,
        caller: AccountId,
        contract: AccountId,
        id: RawRegionId,
        metadata: Region,
    ) -> (r: Result<RegionInitialized, XcRegionsError>)
        ensures
            old(self).wf() ==> final(self).wf(),
            r is Err ==> *final(self) == *old(self),
            r == Err::<RegionInitialized, XcRegionsError>(XcRegionsError::CannotInitialize) <==> (
            !(old(self).items@.contains_key(id) && old(self).items@[id].owner == caller) || old(self).regions@.contains_key(id)),
            r == Err::<RegionInitialized, XcRegionsError>(XcRegionsError::InvalidMetadata) <==> (
            old(self).items@.contains_key(id) && old(self).items@[id].owner == caller && !old(self).regions@.contains_key(id) && !(spec_region_id_of(id).begin == metadata.begin
                && spec_region_id_of(id).core == metadata.core && spec_region_id_of(id).mask.0@
                == metadata.mask.0@)),
            r == Err::<RegionInitialized, XcRegionsError>(
                XcRegionsError::Psp34(PSP34Error::TokenExists),
            ) <==> (old(self).items@.contains_key(id) && old(self).items@[id].owner == caller
                && !old(self).regions@.contains_key(id) && spec_region_id_of(id).begin
                == metadata.begin && spec_region_id_of(id).core == metadata.core
                && spec_region_id_of(id).mask.0@ == metadata.mask.0@ && old(self).wrapped_owner@.contains_key(id)),
            r is Ok <==> (old(self).items@.contains_key(id) && old(self).items@[id].owner == caller
                && !old(self).regions@.contains_key(id) && spec_region_id_of(id).begin
                == metadata.begin && spec_region_id_of(id).core == metadata.core
                && spec_region_id_of(id).mask.0@ == metadata.mask.0@ && !old(self).wrapped_owner@.contains_key(id)),
            r matches Ok(ev) ==> {
                &&& ev.region_id == id
                &&& ev.metadata == metadata
                &&& ev.version == spec_next_version(old(self).metadata_versions@, id)
                &&& final(self).regions@ == old(self).regions@.insert(id, metadata)
                &&& final(self).metadata_versions@ == old(self).metadata_versions@.insert(
                    id,
                    ev.version,
                )
                &&& final(self).wrapped_owner@ == old(self).wrapped_owner@.insert(id, caller)
                &&& final(self).items@ == old(self).items@.insert(
                    id,
                    ItemDetails { owner: contract, approved: None, is_frozen: false, deposit: 0 },
                )
                &&& final(self).balances@ == old(self).balances@.insert(
                    caller,
                    spec_increment_balance(old(self).balances@, caller),
                )
            },
    {
        let owner_ok = match self.uniques_owner(id) {
            Some(owner) => owner == caller,
            None => false,
        };
        if !owner_ok {
            return Err(XcRegionsError::CannotInitialize);
        }
        // Cannot initialize a region that already has metadata stored.
        if self.regions.contains_key(&id) {
            return Err(XcRegionsError::CannotInitialize);
        }
        // Do a sanity check to ensure that the provided region metadata
        // matches with the metadata extracted from the region id.
        let region_id = RegionId::from(id);
        if region_id.begin != metadata.begin {
            return Err(XcRegionsError::InvalidMetadata);
        }
        if region_id.core != metadata.core {
            return Err(XcRegionsError::InvalidMetadata);
        }
        if region_id.mask != metadata.mask {
            return Err(XcRegionsError::InvalidMetadata);
        }
        // A wrapped token for a region without stored metadata cannot arise
        // through this interface; refuse rather than double-mint.
        if self.wrapped_owner.contains_key(&id) {
            return Err(XcRegionsError::Psp34(PSP34Error::TokenExists));
        }
        // After passing all checks, transfer the region to the registry and
        // mint a wrapped token.
        match self.transfer_underlying(id, contract) {
            Ok(_) => {},
            Err(e) => {
                proof {
                    assert(false);
                }
                return Err(e);
            },
        }
        let new_version: u32 = match self.metadata_versions.get(&id) {
            Some(version) => {
                if *version < u32::MAX {
                    *version + 1
                } else {
                    *version
                }
            },
            None => 0,
        };
        self.metadata_versions.insert(id, new_version);
        self.regions.insert(id, metadata);
        match self.mint_wrapped_to(caller, id) {
            Ok(_) => {},
            Err(_) => {
                proof {
                    assert(false);
                }
                return Err(XcRegionsError::RuntimeError);
            },
        }
        Ok(RegionInitialized { region_id: id, metadata, version: new_version })
    }

    /// A function to retrieve all metadata associated with a specific
    /// region, together with the version of that metadata, which is intended
    /// for client-side verification.
    fn get_metadata(&self, id: RawRegionId) -> (r: Result<VersionedRegion, XcRegionsError>)
        ensures
            self.regions@.contains_key(id) && self.metadata_versions@.contains_key(id) ==> r
                == Ok::<VersionedRegion, XcRegionsError>(
                VersionedRegion {
                    version: self.metadata_versions@[id],
                    region: self.regions@[id],
                },
            ),
            self.regions@.contains_key(id) && !self.metadata_versions@.contains_key(id) ==> r
                == Err::<VersionedRegion, XcRegionsError>(XcRegionsError::VersionNotFound),
            !self.regions@.contains_key(id) ==> r == Err::<VersionedRegion, XcRegionsError>(
                XcRegionsError::MetadataNotFound,
            ),
    {
        let region = match self.regions.get(&id) {
            Some(region) => *region,
            None => {
                return Err(XcRegionsError::MetadataNotFound);
            },
        };
        let version = match self.metadata_versions.get(&id) {
            Some(version) => *version,
            None => {
                // A region with stored metadata always has its version
                // stored as well.
                return Err(XcRegionsError::VersionNotFound);
            },
        };
        Ok(VersionedRegion { version, region })
    }

    /// A function to return the region to its owner, burning the wrapped
    /// token and eliminating the metadata. Only the owner of the wrapped
    /// region can call it. The metadata version is retained, so that a
    /// re-initialization of the same region bumps rather than reuses it. On
    /// success the `RegionRemoved` event is returned for the caller to emit;
    /// on any error the registry's state is unchanged.
    fn remove(&mut self, caller: AccountId, id: RawRegionId) -> (r: Result<
        RegionRemoved,
        XcRegionsError,
    >)
        ensures
            old(self).wf() ==> final(self).wf(),
            r is Err ==> *final(self) == *old(self),
            r == Err::<RegionRemoved, XcRegionsError>(XcRegionsError::CannotRemove) <==> !(old(self).wrapped_owner@.contains_key(id) && old(self).wrapped_owner@[id] == caller),
            r == Err::<RegionRemoved, XcRegionsError>(XcRegionsError::RuntimeError) <==> (old(self).wrapped_owner@.contains_key(id) && old(self).wrapped_owner@[id] == caller && !old(self).items@.contains_key(id)),
            r is Ok <==> (old(self).wrapped_owner@.contains_key(id) && old(self).wrapped_owner@[id]
                == caller && old(self).items@.contains_key(id)),
            r matches Ok(ev) ==> {
                &&& ev.region_id == id
                &&& final(self).regions@ == old(self).regions@.remove(id)
                &&& final(self).metadata_versions@ == old(self).metadata_versions@
                &&& final(self).wrapped_owner@ == old(self).wrapped_owner@.remove(id)
                &&& final(self).items@ == old(self).items@.insert(
                    id,
                    ItemDetails { owner: caller, approved: None, is_frozen: false, deposit: 0 },
                )
            },
    {
        let owner = match self.wrapped_owner.get(&id) {
            Some(owner) => *owner,
            None => {
                return Err(XcRegionsError::CannotRemove);
            },
        };
        if owner != caller {
            return Err(XcRegionsError::CannotRemove);
        }
        // Return the underlying region to its owner.
        match self.transfer_underlying(id, owner) {
            Ok(_) => {},
            Err(e) => {
                return Err(e);
            },
        }
        self.regions.remove(&id);
        match self.burn_wrapped_from(owner, id) {
            Ok(_) => {},
            Err(_) => {
                proof {
                    assert(false);
                }
                return Err(XcRegionsError::RuntimeError);
            },
        }
        Ok(RegionRemoved { region_id: id })
    }
}

impl Psp34 for XcRegions {
    /// The identifier of the wrapped-region collection.
    fn collection_id(&self) -> (r: Id)
        ensures
            r == Id::U32(REGIONS_COLLECTION_ID),
    {
        Id::U32(REGIONS_COLLECTION_ID)
    }

    /// The number of wrapped tokens `owner` holds.
    fn balance_of(&self, owner: AccountId) -> (r: u32)
        ensures
            r == if self.balances@.contains_key(owner) {
                self.balances@[owner]
            } else {
                0u32
            },
    {
        match self.balances.get(&owner) {
            Some(balance) => *balance,
            None => 0,
        }
    }

    /// The owner of the wrapped token `id`, if it exists.
    fn owner_of(&self, id: Id) -> (r: Option<AccountId>)
        ensures
            r == (match id {
                Id::U128(rid) => if self.wrapped_owner@.contains_key(rid) {
                    Some(self.wrapped_owner@[rid])
                } else {
                    None::<AccountId>
                },
                _ => None::<AccountId>,
            }),
    {
        let rid: u128 = match id {
            Id::U128(rid) => rid,
            _ => {
                return None;
            },
        };
        match self.wrapped_owner.get(&rid) {
            Some(owner) => Some(*owner),
            None => None,
        }
    }

    /// Whether `operator` may act for `owner`: either approved for all of
    /// the owner's tokens, or approved for the specific token, which must
    /// then belong to `owner`.
    fn allowance(&self, owner: AccountId, operator: AccountId, id: Option<Id>) -> (r: bool)
        ensures
            r == (self.operator_approvals@.contains_key(spec_account_pair(owner, operator)) || (
            match id {
                Some(Id::U128(rid)) => self.token_approvals@.contains_key(rid)
                    && self.token_approvals@[rid] == operator
                    && self.wrapped_owner@.contains_key(rid) && self.wrapped_owner@[rid] == owner,
                _ => false,
            })),
    {
        if self.operator_approvals.contains_key(&account_pair(owner, operator)) {
            return true;
        }
        let rid: u128 = match id {
            Some(Id::U128(rid)) => rid,
            _ => {
                return false;
            },
        };
        let approved = match self.token_approvals.get(&rid) {
            Some(approved) => *approved == operator,
            None => false,
        };
        let owned = match self.wrapped_owner.get(&rid) {
            Some(o) => *o == owner,
            None => false,
        };
        approved && owned
    }

    /// Approves or revokes `operator`, for one wrapped token of the caller
    /// or for all of them.
    fn approve(
        &mut self,
        caller: AccountId,
        operator: AccountId,
        id: Option<Id>,
        approved: bool,
    ) -> (r: Result<(), PSP34Error>)
        ensures
            r is Err ==> *final(self) == *old(self),
            r == Err::<(), PSP34Error>(PSP34Error::SelfApprove) <==> operator == caller,
            r is Ok ==> final(self).regions@ == old(self).regions@ && final(self).metadata_versions@ == old(self).metadata_versions@ && final(self).items@ == old(self).items@ && final(self).wrapped_owner@ == old(self).wrapped_owner@ && final(self).balances@ == old(self).balances@,
            r is Ok ==> match id {
                None => final(self).token_approvals@ == old(self).token_approvals@ && (if approved {
                    final(self).operator_approvals@ == old(self).operator_approvals@.insert(
                        spec_account_pair(caller, operator),
                        true,
                    )
                } else {
                    final(self).operator_approvals@ == old(self).operator_approvals@.remove(
                        spec_account_pair(caller, operator),
                    )
                }),
                Some(Id::U128(rid)) => old(self).wrapped_owner@.contains_key(rid) && old(self).wrapped_owner@[rid] == caller && final(self).operator_approvals@ == old(self).operator_approvals@ && (if approved {
                    final(self).token_approvals@ == old(self).token_approvals@.insert(
                        rid,
                        operator,
                    )
                } else {
                    final(self).token_approvals@ == old(self).token_approvals@.remove(rid)
                }),
                _ => false,
            },
    {
        if operator == caller {
            return Err(PSP34Error::SelfApprove);
        }
        match id {
            None => {
                if approved {
                    self.operator_approvals.insert(account_pair(caller, operator), true);
                } else {
                    self.operator_approvals.remove(&account_pair(caller, operator));
                }
                Ok(())
            },
            Some(Id::U128(rid)) => {
                let owner = match self.wrapped_owner.get(&rid) {
                    Some(owner) => *owner,
                    None => {
                        return Err(PSP34Error::TokenNotExists);
                    },
                };
                if owner != caller {
                    return Err(PSP34Error::NotApproved);
                }
                if approved {
                    self.token_approvals.insert(rid, operator);
                } else {
                    self.token_approvals.remove(&rid);
                }
                Ok(())
            },
            Some(_) => Err(PSP34Error::TokenNotExists),
        }
    }

    /// Transfers the wrapped token `id` to `to`. The caller must be its
    /// owner, approved for it, or approved for all of the owner's tokens;
    /// any approval for the specific token is consumed by the transfer.
    fn transfer(&mut self, caller: AccountId, to: AccountId, id: Id, data: Vec<u8>) -> (r: Result<
        (),
        PSP34Error,
    >)
        ensures
            r is Err ==> *final(self) == *old(self),
            r matches Ok(_) ==> match id {
                Id::U128(rid) => {
                    &&& old(self).wrapped_owner@.contains_key(rid)
                    &&& final(self).wrapped_owner@ == old(self).wrapped_owner@.insert(rid, to)
                    &&& final(self).token_approvals@ == old(self).token_approvals@.remove(rid)
                    &&& final(self).regions@ == old(self).regions@
                    &&& final(self).metadata_versions@ == old(self).metadata_versions@
                    &&& final(self).items@ == old(self).items@
                    &&& final(self).operator_approvals@ == old(self).operator_approvals@
                },
                _ => false,
            },
    {
        let rid: u128 = match id {
            Id::U128(rid) => rid,
            _ => {
                return Err(PSP34Error::TokenNotExists);
            },
        };
        let owner = match self.wrapped_owner.get(&rid) {
            Some(owner) => *owner,
            None => {
                return Err(PSP34Error::TokenNotExists);
            },
        };
        let token_approved = match self.token_approvals.get(&rid) {
            Some(approved) => *approved == caller,
            None => false,
        };
        let operator_approved = self.operator_approvals.contains_key(&account_pair(owner, caller));
        if !(caller == owner || token_approved || operator_approved) {
            return Err(PSP34Error::NotApproved);
        }
        self.token_approvals.remove(&rid);
        let from_balance = match self.balances.get(&owner) {
            Some(balance) => *balance,
            None => 0,
        };
        self.balances.insert(owner, if from_balance > 0 {
            from_balance - 1
        } else {
            0
        });
        self.wrapped_owner.insert(rid, to);
        let to_balance = match self.balances.get(&to) {
            Some(balance) => *balance,
            None => 0,
        };
        self.balances.insert(to, if to_balance < u32::MAX {
            to_balance + 1
        } else {
            to_balance
        });
        Ok(())
    }

    /// The total number of wrapped tokens in existence.
    fn total_supply(&self) -> (r: Balance)
        ensures
            r as nat == self.wrapped_owner@.len(),
    {
        self.wrapped_owner.len() as u128
    }
}

/// The balance an account moves to when it receives one more wrapped token,
/// saturating at the counter's width.
pub open spec fn spec_increment_balance(balances: Map<AccountId, u32>, who: AccountId) -> u32 {
    let current = if balances.contains_key(who) {
        balances[who]
    } else {
        0
    };
    if current < u32::MAX {
        (current + 1) as u32
    } else {
        current
    }
}

/// The balance an account moves to when it gives one wrapped token up,
/// saturating at zero.
pub open spec fn spec_decrement_balance(balances: Map<AccountId, u32>, who: AccountId) -> u32 {
    let current = if balances.contains_key(who) {
        balances[who]
    } else {
        0
    };
    if current > 0 {
        (current - 1) as u32
    } else {
        0
    }
}

} // verus!
