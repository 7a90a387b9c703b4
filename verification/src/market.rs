//! The marketplace: the listing ledger and its state machine.
//!
//! A region id is either unlisted or listed; `list_region` moves it to
//! listed, `unlist_region` and `purchase_region` move it back, and
//! `update_region_price` mutates the listing in place. The listings map and
//! the listed-ids index are always modified together: a region id is in the
//! index exactly when a listing exists for it.

use crate::coretime::RawRegionId;
use crate::coretime::Region;
use crate::coretime::Timeslice;
use crate::extension::Ledger;
use crate::price;
use crate::xc_regions::Id;
use crate::xc_regions::Psp34;
use crate::xc_regions::RegionMetadata;
use crate::xc_regions::PSP34Error;
use crate::xc_regions::XcRegionsError;
use crate::AccountId;
use crate::Balance;
use crate::BlockNumber;
use crate::Version;
use std::collections::HashMap;
use vstd::prelude::*;

verus! {

broadcast use vstd::std_specs::hash::group_hash_axioms;

/// The market-wide configuration, set on construction and immutable
/// afterwards.
#[derive(Clone, Copy, Debug, PartialEq, Eq, Structural)]
pub struct Config {
    /// The account of the registry contract that wraps regions.
    pub xc_regions_contract: AccountId,
    /// The deposit required to list a region on sale.
    pub listing_deposit: Balance,
    /// The number of relay chain blocks per timeslice.
    pub timeslice_period: BlockNumber,
}

/// The mutable sale record of a listed region.
#[derive(Clone, Copy, Debug, PartialEq, Eq, Structural)]
pub struct Listing {
    /// The account selling the specific region.
    pub seller: AccountId,
    /// The price per a single timeslice.
    pub timeslice_price: Balance,
    /// The account receiving the payment from the sale.
    ///
    /// If not specified otherwise this is the `seller` account.
    pub sale_recepient: AccountId,
    /// The metadata version of the region listed on sale. Used to prevent
    /// front running attacks.
    pub metadata_version: Version,
}

/// Error of a market operation.
#[derive(Clone, Debug, PartialEq, Eq)]
pub enum MarketError {
    /// An arithmetic error occured.
    ArithmeticError,
    /// The provided identifier is not a valid region id.
    InvalidRegionId,
    /// The specified region is expired.
    RegionExpired,
    /// The caller made the call without sending the required deposit amount.
    MissingDeposit,
    /// Caller tried to perform an action on a region that is not listed.
    RegionNotListed,
    /// The caller tried to purchase a region without sending enough tokens.
    InsufficientFunds,
    /// The metadata of the region doesn't match with what the caller
    /// expected.
    MetadataNotMatching,
    /// Failed to transfer the tokens to the seller.
    TransferFailed,
    /// The caller tried to perform an operation that they have no permission
    /// for.
    NotAllowed,
    /// An error occured when calling the registry through the wrapped-asset
    /// interface.
    XcRegionsPsp34Error(PSP34Error),
    /// An error occured when calling the registry through the metadata
    /// interface.
    XcRegionsMetadataError(XcRegionsError),
}

impl MarketError {
    /// A short description of the error, one per variant.
    pub fn message(&self) -> &'static str {
        match self {
            MarketError::ArithmeticError => "ArithmeticError",
            MarketError::InvalidRegionId => "InvalidRegionId",
            MarketError::RegionExpired => "RegionExpired",
            MarketError::MissingDeposit => "MissingDeposit",
            MarketError::RegionNotListed => "RegionNotListed",
            MarketError::InsufficientFunds => "InsufficientFunds",
            MarketError::MetadataNotMatching => "MetadataNotMatching",
            MarketError::TransferFailed => "TransferFailed",
            MarketError::NotAllowed => "NotAllowed",
            MarketError::XcRegionsPsp34Error(_) => "XcRegionsPsp34Error",
            MarketError::XcRegionsMetadataError(_) => "XcRegionsMetadataError",
        }
    }
}

/// Event describing that a region got listed on sale.
#[derive(Clone, Copy, Debug, PartialEq, Eq, Structural)]
pub struct RegionListed {
    /// The identifier of the region that got listed on sale.
    pub region_id: RawRegionId,
    /// The per timeslice price of the listed region.
    pub timeslice_price: Balance,
    /// The seller of the region.
    pub seller: AccountId,
    /// The sale revenue recipient.
    pub sale_recepient: AccountId,
    /// The metadata version of the region.
    pub metadata_version: Version,
}

/// Event describing that a region got unlisted from sale.
#[derive(Clone, Copy, Debug, PartialEq, Eq, Structural)]
pub struct RegionUnlisted {
    /// The identifier of the region that got unlisted from sale.
    pub region_id: RawRegionId,
    /// The account that removed the region from sale.
    pub caller: AccountId,
}

/// Event describing that a region got purchased.
#[derive(Clone, Copy, Debug, PartialEq, Eq, Structural)]
pub struct RegionPurchased {
    /// The identifier of the region that got purchased.
    pub region_id: RawRegionId,
    /// The buyer of the region.
    pub buyer: AccountId,
    /// The total price paid for the listed region.
    pub total_price: Balance,
}

/// Event describing that a listed region's price was updated.
#[derive(Clone, Copy, Debug, PartialEq, Eq, Structural)]
pub struct RegionPriceUpdated {
    /// The identifier of the region that got its price updated.
    pub region_id: RawRegionId,
    /// The new per timeslice price.
    pub new_timeslice_price: Balance,
}

/// The marketplace state: the listing per listed region id, the index of all
/// listed region ids, and the immutable configuration.
pub struct CoretimeMarket {
    /// A mapping that holds information about each region listed on sale.
    pub listings: HashMap<RawRegionId, Listing>,
    /// A vector containing all the regions listed on sale.
    pub listed_regions: Vec<RawRegionId>,
    /// The configuration of the market. Set on contract initialization.
    /// Can't be changed afterwards.
    pub config: Config,
}

impl CoretimeMarket {
    /// The index/listing consistency invariant: a region id has a listing
    /// exactly when it is in the listed-ids index, the index holds no
    /// duplicates, and the timeslice period is a usable divisor.
    pub open spec fn wf(&self) -> bool {
        &&& self.config.timeslice_period > 0
        &&& self.listed_regions@.no_duplicates()
        &&& forall|id: RawRegionId|
            #[trigger] self.listings@.contains_key(id) <==> self.listed_regions@.contains(id)
    }

    /// Creates a market around the given registry, with the given listing
    /// deposit and timeslice period.
    pub fn new(
        xc_regions_contract: AccountId,
        listing_deposit: Balance,
        timeslice_period: BlockNumber,
    ) -> (r: Self)
        requires
            timeslice_period > 0,
        ensures
            r.wf(),
            r.config == (Config { xc_regions_contract, listing_deposit, timeslice_period }),
            r.listings@ == Map::<RawRegionId, Listing>::empty(),
            r.listed_regions@ == Seq::<RawRegionId>::empty(),
    {
        let r = CoretimeMarket {
            listings: HashMap::new(),
            listed_regions: Vec::new(),
            config: Config { xc_regions_contract, listing_deposit, timeslice_period },
        };
        proof {
            assert(forall|id: RawRegionId| !r.listed_regions@.contains(id));
        }
        r
    }

    /// The account of the registry contract this market trades against.
    pub fn xc_regions_contract(&self) -> (r: AccountId)
        ensures
            r == self.config.xc_regions_contract,
    {
        self.config.xc_regions_contract
    }

    /// All the region ids currently listed on sale.
    pub fn listed_regions(&self) -> (r: Vec<RawRegionId>)
        ensures
            r@ == self.listed_regions@,
    {
        self.listed_regions.clone()
    }

    /// The listing of a region, if it is listed.
    pub fn listed_region(&self, id: Id) -> (r: Result<Option<Listing>, MarketError>)
        ensures
            match id {
                Id::U128(rid) => r == Ok::<Option<Listing>, MarketError>(
                    if self.listings@.contains_key(rid) {
                        Some(self.listings@[rid])
                    } else {
                        None
                    },
                ),
                _ => r == Err::<Option<Listing>, MarketError>(MarketError::InvalidRegionId),
            },
    {
        let region_id: u128 = match id {
            Id::U128(region_id) => region_id,
            _ => {
                return Err(MarketError::InvalidRegionId);
            },
        };
        match self.listings.get(&region_id) {
            Some(listing) => Ok(Some(*listing)),
            None => Ok(None),
        }
    }

    /// The current timeslice, derived from the ledger-observed relay chain
    /// block number; a failed read counts as block zero. Whatever the
    /// ledger answered, the result is some block number divided by the
    /// configured period; `timeslice_of` carries the exact formula.
    pub fn current_timeslice<L: Ledger>(&self, ledger: &L) -> (r: Timeslice)
        requires
            self.wf(),
        ensures
            exists|b: BlockNumber| r == #[trigger] spec_timeslice_of(b, self.config.timeslice_period),
    {
        let latest_rc_block: u32 = match ledger.relay_chain_block_number() {
            Ok(b) => b,
            Err(_) => 0,
        };
        let r = timeslice_of(latest_rc_block, self.config.timeslice_period);
        proof {
            assert(r == spec_timeslice_of(latest_rc_block, self.config.timeslice_period));
        }
        r
    }

    /// The current ask price of the listed region `id`, judged against the
    /// registry's current descriptor and the ledger-observed timeslice.
    pub fn region_price<R: RegionMetadata, L: Ledger>(
        &self,
        registry: &R,
        ledger: &L,
        id: Id,
    ) -> (r: Result<Balance, MarketError>)
        requires
            self.wf(),
        ensures
            r == Err::<Balance, MarketError>(MarketError::InvalidRegionId) <==> !(id is U128),
            r == Err::<Balance, MarketError>(MarketError::RegionNotListed) ==> !self.listings@.contains_key(id->U128_0),
            r matches Ok(p) ==> {
                &&& self.listings@.contains_key(id->U128_0)
                &&& exists|reg: Region, now: Timeslice|
                    p as int == price::region_price(
                        reg,
                        self.listings@[id->U128_0].timeslice_price,
                        now,
                    )
            },
    {
        let region_id: u128 = match id {
            Id::U128(region_id) => region_id,
            _ => {
                return Err(MarketError::InvalidRegionId);
            },
        };
        let metadata = match registry.get_metadata(region_id) {
            Ok(m) => m,
            Err(e) => {
                return Err(MarketError::XcRegionsMetadataError(e));
            },
        };
        let listing = match self.listings.get(&region_id) {
            Some(l) => *l,
            None => {
                return Err(MarketError::RegionNotListed);
            },
        };
        self.calculate_region_price(ledger, metadata.region, listing)
    }

    /// A function for listing a region on sale.
    ///
    /// The caller must first have approved their region to the market
    /// account, as the registry transfers it to the market when listed for
    /// sale. Listing requires attaching exactly the configured deposit,
    /// returned upon unlisting, so that expired listings do not bloat the
    /// market's state forever.
    ///
    /// On success the listing is pinned to the metadata version the registry
    /// reported, and the computed `RegionListed` event is returned for the
    /// caller to emit. On any error the market's state is unchanged.
    pub fn list_region<R: RegionMetadata + Psp34, L: Ledger>(
        &mut self,
        registry: &mut R,
        ledger: &L,
        caller: AccountId,
        market: AccountId,
        transferred_value: Balance,
        id: Id,
        timeslice_price: Balance,
        sale_recepient: Option<AccountId>,
    ) -> (r: Result<RegionListed, MarketError>)
        requires
            old(self).wf(),
        ensures
            final(self).wf(),
            final(self).config == old(self).config,
            r is Err ==> final(self).listings@ == old(self).listings@ && final(self).listed_regions@ == old(self).listed_regions@,
            r == Err::<RegionListed, MarketError>(MarketError::InvalidRegionId) <==> !(id is U128),
            r == Err::<RegionListed, MarketError>(MarketError::NotAllowed) <==> (id is U128
                && old(self).listings@.contains_key(id->U128_0)),
            r == Err::<RegionListed, MarketError>(MarketError::RegionExpired) ==> (id is U128
                && !old(self).listings@.contains_key(id->U128_0)),
            r == Err::<RegionListed, MarketError>(MarketError::MissingDeposit) ==> transferred_value
                != old(self).config.listing_deposit,
            r matches Ok(ev) ==> {
                &&& id == Id::U128(ev.region_id)
                &&& !old(self).listings@.contains_key(ev.region_id)
                &&& transferred_value == old(self).config.listing_deposit
                &&& ev.seller == caller
                &&& ev.timeslice_price == timeslice_price
                &&& ev.sale_recepient == (match sale_recepient {
                    Some(recepient) => recepient,
                    None => caller,
                })
                &&& final(self).listings@ == old(self).listings@.insert(
                    ev.region_id,
                    Listing {
                        seller: caller,
                        timeslice_price,
                        sale_recepient: ev.sale_recepient,
                        metadata_version: ev.metadata_version,
                    },
                )
                &&& final(self).listed_regions@ == old(self).listed_regions@.push(ev.region_id)
            },
    {
        let region_id: u128 = match id {
            Id::U128(region_id) => region_id,
            _ => {
                return Err(MarketError::InvalidRegionId);
            },
        };
        // A region that is already listed is not eligible for listing again:
        // its escrow and index entry already exist.
        if self.listings.contains_key(&region_id) {
            return Err(MarketError::NotAllowed);
        }
        // Ensure that the region exists and its metadata is set.
        let metadata = match registry.get_metadata(region_id) {
            Ok(m) => m,
            Err(e) => {
                return Err(MarketError::XcRegionsMetadataError(e));
            },
        };
        let current_timeslice = self.current_timeslice(ledger);
        // It doesn't make sense to list a region that expired.
        if !region_live(metadata.region.end, current_timeslice) {
            return Err(MarketError::RegionExpired);
        }
        if transferred_value != self.config.listing_deposit {
            return Err(MarketError::MissingDeposit);
        }
        // Transfer the region to the market.
        match registry.transfer(market, market, Id::U128(region_id), Vec::new()) {
            Ok(_) => {},
            Err(e) => {
                return Err(MarketError::XcRegionsPsp34Error(e));
            },
        }
        let sale_recepient = match sale_recepient {
            Some(recepient) => recepient,
            None => caller,
        };
        let listing = Listing {
            seller: caller,
            timeslice_price,
            sale_recepient,
            metadata_version: metadata.version,
        };
        self.listings.insert(region_id, listing);
        proof {
            lemma_push_keeps_no_duplicates(self.listed_regions@, region_id);
        }
        self.listed_regions.push(region_id);
        proof {
            lemma_push_contains(old(self).listed_regions@, region_id);
        }
        Ok(
            RegionListed {
                region_id,
                timeslice_price,
                seller: caller,
                sale_recepient,
                metadata_version: metadata.version,
            },
        )
    }

    /// A function for unlisting a region on sale.
    ///
    /// In case the region is expired this is callable by anyone, and the
    /// caller receives the listing deposit as a reward for pruning the stale
    /// listing; otherwise only the seller may unlist. On success the
    /// registry has returned the region to the seller, the deposit has been
    /// paid to the caller, and the computed `RegionUnlisted` event is
    /// returned for the caller to emit. On any error the market's state is
    /// unchanged.
    pub fn unlist_region<R: RegionMetadata + Psp34, L: Ledger>(
        &mut self,
        registry: &mut R,
        ledger: &mut L,
        caller: AccountId,
        market: AccountId,
        id: Id,
    ) -> (r: Result<RegionUnlisted, MarketError>)
        requires
            old(self).wf(),
        ensures
            final(self).wf(),
            final(self).config == old(self).config,
            r is Err ==> final(self).listings@ == old(self).listings@ && final(self).listed_regions@ == old(self).listed_regions@,
            r == Err::<RegionUnlisted, MarketError>(MarketError::InvalidRegionId) <==> !(id
                is U128),
            r == Err::<RegionUnlisted, MarketError>(MarketError::RegionNotListed) <==> (id is U128
                && !old(self).listings@.contains_key(id->U128_0)),
            r == Err::<RegionUnlisted, MarketError>(MarketError::NotAllowed) ==> caller != old(self).listings@[id->U128_0].seller,
            r == Err::<RegionUnlisted, MarketError>(MarketError::TransferFailed) ==> (id is U128
                && old(self).listings@.contains_key(id->U128_0)),
            r matches Ok(ev) ==> {
                &&& id == Id::U128(ev.region_id)
                &&& old(self).listings@.contains_key(ev.region_id)
                &&& ev.caller == caller
                &&& final(self).listings@ == old(self).listings@.remove(ev.region_id)
                &&& exists|i: int|
                    0 <= i < old(self).listed_regions@.len() && old(self).listed_regions@[i]
                        == ev.region_id && final(self).listed_regions@ == old(self).listed_regions@.remove(i)
                &&& forall|other: RawRegionId|
                    #[trigger] final(self).listings@.contains_key(other) <==> (old(self).listings@.contains_key(other) && other != ev.region_id)
            },
    {
        let region_id: u128 = match id {
            Id::U128(region_id) => region_id,
            _ => {
                return Err(MarketError::InvalidRegionId);
            },
        };
        let listing = match self.listings.get(&region_id) {
            Some(l) => *l,
            None => {
                return Err(MarketError::RegionNotListed);
            },
        };
        let metadata = match registry.get_metadata(region_id) {
            Ok(m) => m,
            Err(e) => {
                return Err(MarketError::XcRegionsMetadataError(e));
            },
        };
        let current_timeslice = self.current_timeslice(ledger);
        // If the region is expired this is callable by anyone, otherwise
        // only the seller can unlist the region from the market.
        if !may_unlist(caller, listing.seller, current_timeslice, metadata.region.end) {
            return Err(MarketError::NotAllowed);
        }
        // Transfer the region back to the seller.
        match registry.transfer(market, listing.seller, Id::U128(region_id), Vec::new()) {
            Ok(_) => {},
            Err(e) => {
                return Err(MarketError::XcRegionsPsp34Error(e));
            },
        }
        // Reward the caller with the listing deposit.
        if !ledger.transfer(caller, self.config.listing_deposit) {
            return Err(MarketError::TransferFailed);
        }
        // Remove the region from sale.
        match self.remove_from_sale(region_id) {
            Ok(_) => {},
            Err(e) => {
                return Err(e);
            },
        }
        Ok(RegionUnlisted { region_id, caller })
    }

    /// A function for updating a listed region's price. Only the seller may
    /// reprice; the listing is updated in place, and neither the escrow nor
    /// the index changes. On success the computed `RegionPriceUpdated` event
    /// is returned for the caller to emit.
    pub fn update_region_price(
        &mut self,
        caller: AccountId,
        id: Id,
        new_timeslice_price: Balance,
    ) -> (r: Result<RegionPriceUpdated, MarketError>)
        requires
            old(self).wf(),
        ensures
            final(self).wf(),
            final(self).config == old(self).config,
            final(self).listed_regions@ == old(self).listed_regions@,
            r is Err ==> final(self).listings@ == old(self).listings@,
            r == Err::<RegionPriceUpdated, MarketError>(MarketError::InvalidRegionId) <==> !(id
                is U128),
            r == Err::<RegionPriceUpdated, MarketError>(MarketError::RegionNotListed) <==> (id
                is U128 && !old(self).listings@.contains_key(id->U128_0)),
            r == Err::<RegionPriceUpdated, MarketError>(MarketError::NotAllowed) <==> (id is U128
                && old(self).listings@.contains_key(id->U128_0) && caller != old(self).listings@[id->U128_0].seller),
            r matches Ok(ev) <==> (id is U128 && old(self).listings@.contains_key(id->U128_0)
                && caller == old(self).listings@[id->U128_0].seller),
            r matches Ok(ev) ==> {
                &&& id == Id::U128(ev.region_id)
                &&& ev.new_timeslice_price == new_timeslice_price
                &&& final(self).listings@ == old(self).listings@.insert(
                    ev.region_id,
                    Listing {
                        timeslice_price: new_timeslice_price,
                        ..old(self).listings@[ev.region_id]
                    },
                )
            },
    {
        let region_id: u128 = match id {
            Id::U128(region_id) => region_id,
            _ => {
                return Err(MarketError::InvalidRegionId);
            },
        };
        let mut listing = match self.listings.get(&region_id) {
            Some(l) => *l,
            None => {
                return Err(MarketError::RegionNotListed);
            },
        };
        if caller != listing.seller {
            return Err(MarketError::NotAllowed);
        }
        listing.timeslice_price = new_timeslice_price;
        self.listings.insert(region_id, listing);
        Ok(RegionPriceUpdated { region_id, new_timeslice_price })
    }

    /// A function for purchasing a region listed on sale.
    ///
    /// The buyer supplies the metadata version they believe is current; a
    /// mismatch with the version pinned at listing time aborts the purchase,
    /// so a buyer can never transact on terms that changed since they last
    /// observed the region. The attached value must cover the ask price at
    /// the current timeslice.
    ///
    /// The registry transfer to the buyer and the payment to the sale
    /// recipient are both attempted before any state mutation: a failure of
    /// either leaves the listing and the index untouched, and the host's
    /// call-level atomicity unwinds the externals. On success the listing
    /// and its index entry are removed together and the computed
    /// `RegionPurchased` event is returned for the caller to emit.
    pub fn purchase_region<R: RegionMetadata + Psp34, L: Ledger>(
        &mut self,
        registry: &mut R,
        ledger: &mut L,
        caller: AccountId,
        market: AccountId,
        transferred_value: Balance,
        id: Id,
        metadata_version: Version,
    ) -> (r: Result<RegionPurchased, MarketError>)
        requires
            old(self).wf(),
        ensures
            final(self).wf(),
            final(self).config == old(self).config,
            r is Err ==> final(self).listings@ == old(self).listings@ && final(self).listed_regions@ == old(self).listed_regions@,
            r == Err::<RegionPurchased, MarketError>(MarketError::InvalidRegionId) <==> !(id
                is U128),
            r == Err::<RegionPurchased, MarketError>(MarketError::RegionNotListed) <==> (id is U128
                && !old(self).listings@.contains_key(id->U128_0)),
            r == Err::<RegionPurchased, MarketError>(MarketError::MetadataNotMatching) ==> old(self).listings@[id->U128_0].metadata_version != metadata_version,
            r == Err::<RegionPurchased, MarketError>(MarketError::InsufficientFunds) ==> (id
                is U128 && old(self).listings@.contains_key(id->U128_0) && exists|
                reg: Region,
                now: Timeslice,
            |
                transferred_value < price::region_price(
                    reg,
                    old(self).listings@[id->U128_0].timeslice_price,
                    now,
                )),
            r == Err::<RegionPurchased, MarketError>(MarketError::TransferFailed) ==> (id is U128
                && old(self).listings@.contains_key(id->U128_0)),
            r matches Ok(ev) ==> {
                &&& id == Id::U128(ev.region_id)
                &&& old(self).listings@.contains_key(ev.region_id)
                &&& old(self).listings@[ev.region_id].metadata_version == metadata_version
                &&& ev.buyer == caller
                &&& ev.total_price <= transferred_value
                &&& exists|reg: Region, now: Timeslice|
                    ev.total_price as int == price::region_price(
                        reg,
                        old(self).listings@[ev.region_id].timeslice_price,
                        now,
                    )
                &&& final(self).listings@ == old(self).listings@.remove(ev.region_id)
                &&& exists|i: int|
                    0 <= i < old(self).listed_regions@.len() && old(self).listed_regions@[i]
                        == ev.region_id && final(self).listed_regions@ == old(self).listed_regions@.remove(i)
                &&& forall|other: RawRegionId|
                    #[trigger] final(self).listings@.contains_key(other) <==> (old(self).listings@.contains_key(other) && other != ev.region_id)
            },
    {
        let region_id: u128 = match id {
            Id::U128(region_id) => region_id,
            _ => {
                return Err(MarketError::InvalidRegionId);
            },
        };
        let listing = match self.listings.get(&region_id) {
            Some(l) => *l,
            None => {
                return Err(MarketError::RegionNotListed);
            },
        };
        let metadata = match registry.get_metadata(region_id) {
            Ok(m) => m,
            Err(e) => {
                return Err(MarketError::XcRegionsMetadataError(e));
            },
        };
        let price = match self.calculate_region_price(ledger, metadata.region, listing) {
            Ok(p) => p,
            Err(e) => {
                return Err(e);
            },
        };
        match check_purchase_terms(&listing, price, transferred_value, metadata_version) {
            Ok(_) => {},
            Err(e) => {
                return Err(e);
            },
        }
        // Transfer the region to the buyer.
        match registry.transfer(market, caller, Id::U128(region_id), Vec::new()) {
            Ok(_) => {},
            Err(e) => {
                return Err(MarketError::XcRegionsPsp34Error(e));
            },
        }
        // Transfer the tokens to the sale recipient.
        if !ledger.transfer(listing.sale_recepient, price) {
            return Err(MarketError::TransferFailed);
        }
        // Remove the region from sale.
        match self.remove_from_sale(region_id) {
            Ok(_) => {},
            Err(e) => {
                return Err(e);
            },
        }
        Ok(RegionPurchased { region_id, buyer: caller, total_price: price })
    }

    /// Computes the current ask price of a region from its descriptor and
    /// listing, at the ledger-observed timeslice.
    pub fn calculate_region_price<L: Ledger>(
        &self,
        ledger: &L,
        region: Region,
        listing: Listing,
    ) -> (r: Result<Balance, MarketError>)
        requires
            self.wf(),
        ensures
            r matches Ok(p) && exists|now: Timeslice|
                p as int == price::region_price(region, listing.timeslice_price, now),
    {
        let current_timeslice = self.current_timeslice(ledger);
        let r = price::calculate_price(&region, listing.timeslice_price, current_timeslice);
        proof {
            let p = r->Ok_0;
            assert(p as int == price::region_price(
                region,
                listing.timeslice_price,
                current_timeslice,
            ));
        }
        r
    }

    /// Removes a region from sale: the listing and its index entry are
    /// removed together, and a missing index entry for an existing listing
    /// can never arise.
    fn remove_from_sale(&mut self, region_id: RawRegionId) -> (r: Result<(), MarketError>)
        requires
            old(self).wf(),
        ensures
            final(self).wf(),
            final(self).config == old(self).config,
            r is Ok <==> old(self).listings@.contains_key(region_id),
            r is Err ==> r == Err::<(), MarketError>(MarketError::RegionNotListed) && final(self).listings@ == old(self).listings@ && final(self).listed_regions@ == old(self).listed_regions@,
            r is Ok ==> {
                &&& final(self).listings@ == old(self).listings@.remove(region_id)
                &&& exists|i: int|
                    0 <= i < old(self).listed_regions@.len() && old(self).listed_regions@[i]
                        == region_id && final(self).listed_regions@ == old(self).listed_regions@.remove(i)
                &&& final(self).listed_regions@.len() == old(self).listed_regions@.len() - 1
                &&& forall|other: RawRegionId|
                    #[trigger] final(self).listed_regions@.contains(other) <==> (old(self).listed_regions@.contains(other) && other != region_id)
            },
    {
        let n = self.listed_regions.len();
        let mut region_index: usize = 0;
        while region_index < n && self.listed_regions[region_index] != region_id
            invariant
                n == self.listed_regions@.len(),
                region_index <= n,
                forall|j: int| 0 <= j < region_index ==> self.listed_regions@[j] != region_id,
            decreases n - region_index,
        {
            region_index = region_index + 1;
        }
        if region_index == n {
            proof {
                assert(!self.listed_regions@.contains(region_id));
            }
            return Err(MarketError::RegionNotListed);
        }
        proof {
            assert(self.listed_regions@[region_index as int] == region_id);
            assert(self.listed_regions@.contains(region_id));
            lemma_remove_at(self.listed_regions@, region_index as int);
        }
        self.listed_regions.remove(region_index);
        self.listings.remove(&region_id);
        proof {
            let pre = old(self).listed_regions@;
            assert(0 <= region_index < pre.len() && pre[region_index as int] == region_id
                && self.listed_regions@ == pre.remove(region_index as int));
        }
        Ok(())
    }
}

/// The timeslice that a relay chain block number falls in, for the given
/// timeslice period: truncating division, as the ledger-observed time
/// strategy prescribes.
pub open spec fn spec_timeslice_of(block_number: BlockNumber, timeslice_period: BlockNumber) -> Timeslice {
    block_number / timeslice_period
}

/// The executable form of `spec_timeslice_of`.
pub fn timeslice_of(block_number: BlockNumber, timeslice_period: BlockNumber) -> (r: Timeslice)
    requires
        timeslice_period > 0,
    ensures
        r == spec_timeslice_of(block_number, timeslice_period),
        r == block_number / timeslice_period,
{
    block_number / timeslice_period
}

/// Whether a region ending at `end` is still live at timeslice `now`: a
/// region is expired exactly once `now` has reached its end, and only live
/// regions are eligible for listing.
pub fn region_live(end: Timeslice, now: Timeslice) -> (r: bool)
    ensures
        r == (now < end),
{
    now < end
}

/// Whether `caller` may unlist a listing of `seller` at timeslice `now`,
/// for a region ending at `end`: the seller always may; once the region is
/// expired, anyone may prune it.
pub fn may_unlist(caller: AccountId, seller: AccountId, now: Timeslice, end: Timeslice) -> (r:
    bool)
    ensures
        r == (caller == seller || now >= end),
{
    caller == seller || now >= end
}

/// Decides whether a purchase settles against a listing, given the computed
/// ask price and the value the buyer attached: the attached value must
/// cover the ask, and the version the buyer expected must equal the pinned
/// one; the two failures are distinguished in that order.
pub fn check_purchase_terms(
    listing: &Listing,
    price: Balance,
    transferred_value: Balance,
    metadata_version: Version,
) -> (r: Result<(), MarketError>)
    ensures
        r is Ok <==> (transferred_value >= price && listing.metadata_version == metadata_version),
        r == Err::<(), MarketError>(MarketError::InsufficientFunds) <==> transferred_value < price,
        r == Err::<(), MarketError>(MarketError::MetadataNotMatching) <==> (transferred_value
            >= price && listing.metadata_version != metadata_version),
{
    if transferred_value < price {
        return Err(MarketError::InsufficientFunds);
    }
    if listing.metadata_version != metadata_version {
        return Err(MarketError::MetadataNotMatching);
    }
    Ok(())
}

/// After pushing a fresh element, a duplicate-free sequence stays
/// duplicate-free.
proof fn lemma_push_keeps_no_duplicates(s: Seq<RawRegionId>, v: RawRegionId)
    requires
        s.no_duplicates(),
        !s.contains(v),
    ensures
        s.push(v).no_duplicates(),
{
    assert forall|i: int, j: int|
        0 <= i < s.push(v).len() && 0 <= j < s.push(v).len() && i != j implies s.push(v)[i]
        != s.push(v)[j] by {
        if i < s.len() && j < s.len() {
        } else if i < s.len() {
            assert(s.contains(s[i])) by {
                assert(s[i] == s[i]);
            }
        } else if j < s.len() {
            assert(s.contains(s[j])) by {
                assert(s[j] == s[j]);
            }
        }
    }
}

/// Membership in a sequence extended by one element.
proof fn lemma_push_contains(s: Seq<RawRegionId>, v: RawRegionId)
    ensures
        forall|x: RawRegionId| #[trigger] s.push(v).contains(x) <==> (s.contains(x) || x == v),
{
    assert forall|x: RawRegionId| #[trigger] s.push(v).contains(x) implies (s.contains(x) || x
        == v) by {
        let i = choose|i: int| 0 <= i < s.push(v).len() && s.push(v)[i] == x;
        if i < s.len() {
            assert(s[i] == x);
        }
    }
    assert forall|x: RawRegionId| (s.contains(x) || x == v) implies #[trigger] s.push(v).contains(
        x,
    ) by {
        if s.contains(x) {
            let i = choose|i: int| 0 <= i < s.len() && s[i] == x;
            assert(s.push(v)[i] == x);
        } else {
            assert(s.push(v)[s.len() as int] == x);
        }
    }
}

/// Removing the element at a position of a duplicate-free sequence removes
/// exactly that element.
proof fn lemma_remove_at(s: Seq<RawRegionId>, i: int)
    requires
        s.no_duplicates(),
        0 <= i < s.len(),
    ensures
        s.remove(i).no_duplicates(),
        s.remove(i).len() == s.len() - 1,
        forall|x: RawRegionId| #[trigger] s.remove(i).contains(x) <==> (s.contains(x) && x != s[i]),
{
    let t = s.remove(i);
    assert forall|x: RawRegionId| #[trigger] t.contains(x) implies (s.contains(x) && x != s[i]) by {
        let j = choose|j: int| 0 <= j < t.len() && t[j] == x;
        if j < i {
            assert(s[j] == x);
        } else {
            assert(s[j + 1] == x);
        }
    }
    assert forall|x: RawRegionId| (s.contains(x) && x != s[i]) implies #[trigger] t.contains(x) by {
        let j = choose|j: int| 0 <= j < s.len() && s[j] == x;
        if j < i {
            assert(t[j] == x);
        } else {
            assert(j != i);
            assert(t[j - 1] == x);
        }
    }
    assert forall|j1: int, j2: int|
        0 <= j1 < t.len() && 0 <= j2 < t.len() && j1 != j2 implies t[j1] != t[j2] by {
        let k1 = if j1 < i {
            j1
        } else {
            j1 + 1
        };
        let k2 = if j2 < i {
            j2
        } else {
            j2 + 1
        };
        assert(t[j1] == s[k1] && t[j2] == s[k2]);
    }
}

} // verus!
