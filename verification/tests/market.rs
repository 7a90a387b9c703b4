//! Tests of the marketplace state machine: listing, repricing, unlisting and
//! purchasing against an in-memory registry and ledger.

use coretime_market::coretime::CoreMask;
use coretime_market::coretime::Region;
use coretime_market::coretime::RegionId;
use coretime_market::coretime::TIMESLICE_PERIOD;
use coretime_market::extension::BlockNumberProviderError;
use coretime_market::extension::Ledger;
use coretime_market::market::check_purchase_terms;
use coretime_market::market::may_unlist;
use coretime_market::market::region_live;
use coretime_market::market::timeslice_of;
use coretime_market::market::CoretimeMarket;
use coretime_market::market::Listing;
use coretime_market::market::MarketError;
use coretime_market::market::RegionListed;
use coretime_market::market::RegionPriceUpdated;
use coretime_market::market::RegionPurchased;
use coretime_market::market::RegionUnlisted;
use coretime_market::xc_regions::region_id;
use coretime_market::xc_regions::Id;
use coretime_market::xc_regions::Psp34;
use coretime_market::xc_regions::RegionInitialized;
use coretime_market::xc_regions::RegionMetadata;
use coretime_market::xc_regions::RegionRemoved;
use coretime_market::xc_regions::VersionedRegion;
use coretime_market::xc_regions::XcRegions;
use coretime_market::xc_regions::PSP34Error;
use coretime_market::xc_regions::XcRegionsError;
use coretime_market::AccountId;
use coretime_market::Balance;
use coretime_market::BlockNumber;

const CHARLIE: AccountId = 3;
const BOB: AccountId = 4;
const DAVE: AccountId = 5;
const MARKET: AccountId = 7;
const XC_CONTRACT: AccountId = 100;
const DEPOSIT: Balance = 1_000;

struct MockLedger {
    block_number: BlockNumber,
    payments: Vec<(AccountId, Balance)>,
    fail_payments: bool,
}

impl MockLedger {
    fn at_block(block_number: BlockNumber) -> Self {
        MockLedger { block_number, payments: Vec::new(), fail_payments: false }
    }
}

impl Ledger for MockLedger {
    fn relay_chain_block_number(&self) -> Result<BlockNumber, BlockNumberProviderError> {
        Ok(self.block_number)
    }

    fn transfer(&mut self, to: AccountId, amount: Balance) -> bool {
        if self.fail_payments {
            return false;
        }
        self.payments.push((to, amount));
        true
    }
}

/// A registry whose custody transfers can be made to fail, to exercise the
/// market's atomicity.
struct FlakyRegistry {
    inner: XcRegions,
    fail_transfers: bool,
}

impl RegionMetadata for FlakyRegistry {
    fn init(
        &mut self,
        caller: AccountId,
        contract: AccountId,
        id: u128,
        metadata: Region,
    ) -> Result<RegionInitialized, XcRegionsError> {
        self.inner.init(caller, contract, id, metadata)
    }

    fn get_metadata(&self, id: u128) -> Result<VersionedRegion, XcRegionsError> {
        self.inner.get_metadata(id)
    }

    fn remove(&mut self, caller: AccountId, id: u128) -> Result<RegionRemoved, XcRegionsError> {
        self.inner.remove(caller, id)
    }
}

impl Psp34 for FlakyRegistry {
    fn collection_id(&self) -> Id {
        self.inner.collection_id()
    }

    fn balance_of(&self, owner: AccountId) -> u32 {
        self.inner.balance_of(owner)
    }

    fn owner_of(&self, id: Id) -> Option<AccountId> {
        self.inner.owner_of(id)
    }

    fn allowance(&self, owner: AccountId, operator: AccountId, id: Option<Id>) -> bool {
        self.inner.allowance(owner, operator, id)
    }

    fn approve(
        &mut self,
        caller: AccountId,
        operator: AccountId,
        id: Option<Id>,
        approved: bool,
    ) -> Result<(), PSP34Error> {
        self.inner.approve(caller, operator, id, approved)
    }

    fn transfer(
        &mut self,
        caller: AccountId,
        to: AccountId,
        id: Id,
        data: Vec<u8>,
    ) -> Result<(), PSP34Error> {
        if self.fail_transfers {
            return Err(PSP34Error::SafeTransferCheckFailed);
        }
        self.inner.transfer(caller, to, id, data)
    }

    fn total_supply(&self) -> Balance {
        self.inner.total_supply()
    }
}

/// A registry with one region of Charlie's, wrapped and approved to the
/// market, and a fresh market configured against it.
fn setup() -> (XcRegions, CoretimeMarket, u128, Region) {
    let mask = CoreMask::complete();
    let raw = u128::from(RegionId { begin: 2, core: 0, mask });
    let region = Region { begin: 2, end: 10, core: 0, mask };
    let mut registry = XcRegions::new();
    registry.mint(region_id(raw), CHARLIE).unwrap();
    registry.init(CHARLIE, XC_CONTRACT, raw, region).unwrap();
    registry.approve(CHARLIE, MARKET, Some(Id::U128(raw)), true).unwrap();
    let market = CoretimeMarket::new(XC_CONTRACT, DEPOSIT, TIMESLICE_PERIOD);
    (registry, market, raw, region)
}

#[test]
fn constructor_works() {
    let market = CoretimeMarket::new(XC_CONTRACT, DEPOSIT, TIMESLICE_PERIOD);
    assert_eq!(market.xc_regions_contract(), XC_CONTRACT);

    // There should be no regions listed on sale:
    assert_eq!(market.listed_regions(), vec![]);
}

#[test]
fn list_region_works() {
    let (mut registry, mut market, raw, _region) = setup();
    let ledger = MockLedger::at_block(0);

    let event = market
        .list_region(&mut registry, &ledger, CHARLIE, MARKET, DEPOSIT, Id::U128(raw), 10, None)
        .unwrap();
    assert_eq!(
        event,
        RegionListed {
            region_id: raw,
            timeslice_price: 10,
            seller: CHARLIE,
            sale_recepient: CHARLIE,
            metadata_version: 0,
        }
    );

    // The region is escrowed by the market and indexed as listed.
    assert_eq!(registry.owner_of(Id::U128(raw)), Some(MARKET));
    assert_eq!(market.listed_regions(), vec![raw]);
    let listing = market.listed_region(Id::U128(raw)).unwrap().unwrap();
    assert_eq!(listing.seller, CHARLIE);
    assert_eq!(listing.timeslice_price, 10);
    assert_eq!(listing.sale_recepient, CHARLIE);
    assert_eq!(listing.metadata_version, 0);
}

#[test]
fn list_region_requires_exact_deposit() {
    let (mut registry, mut market, raw, _region) = setup();
    let ledger = MockLedger::at_block(0);

    assert_eq!(
        market.list_region(
            &mut registry,
            &ledger,
            CHARLIE,
            MARKET,
            DEPOSIT - 1,
            Id::U128(raw),
            10,
            None
        ),
        Err(MarketError::MissingDeposit)
    );
    assert_eq!(
        market.list_region(
            &mut registry,
            &ledger,
            CHARLIE,
            MARKET,
            DEPOSIT + 1,
            Id::U128(raw),
            10,
            None
        ),
        Err(MarketError::MissingDeposit)
    );
    assert_eq!(market.listed_regions(), vec![]);
}

#[test]
fn list_region_rejects_expired_region() {
    let (mut registry, mut market, raw, _region) = setup();
    // The current timeslice is 10, the region's end.
    let ledger = MockLedger::at_block(10 * TIMESLICE_PERIOD);

    assert_eq!(
        market.list_region(&mut registry, &ledger, CHARLIE, MARKET, DEPOSIT, Id::U128(raw), 10, None),
        Err(MarketError::RegionExpired)
    );
    assert_eq!(market.listed_regions(), vec![]);
}

#[test]
fn listing_twice_fails_and_changes_nothing() {
    let (mut registry, mut market, raw, _region) = setup();
    let ledger = MockLedger::at_block(0);

    market
        .list_region(&mut registry, &ledger, CHARLIE, MARKET, DEPOSIT, Id::U128(raw), 10, None)
        .unwrap();
    let listed_before = market.listed_regions();
    let listing_before = market.listed_region(Id::U128(raw)).unwrap();

    // A second listing of the same still-listed region is not eligible.
    assert_eq!(
        market.list_region(&mut registry, &ledger, CHARLIE, MARKET, DEPOSIT, Id::U128(raw), 99, None),
        Err(MarketError::NotAllowed)
    );

    // The state is identical to the state after the first call.
    assert_eq!(market.listed_regions(), listed_before);
    assert_eq!(market.listed_region(Id::U128(raw)).unwrap(), listing_before);
}

#[test]
fn update_region_price_works() {
    let (mut registry, mut market, raw, _region) = setup();
    let ledger = MockLedger::at_block(0);

    market
        .list_region(&mut registry, &ledger, CHARLIE, MARKET, DEPOSIT, Id::U128(raw), 10, None)
        .unwrap();

    assert_eq!(
        market.update_region_price(CHARLIE, Id::U128(raw), 50),
        Ok(RegionPriceUpdated { region_id: raw, new_timeslice_price: 50 })
    );
    let listing = market.listed_region(Id::U128(raw)).unwrap().unwrap();
    assert_eq!(listing.timeslice_price, 50);

    // Only the seller may reprice.
    assert_eq!(
        market.update_region_price(BOB, Id::U128(raw), 1),
        Err(MarketError::NotAllowed)
    );
    // An unlisted region cannot be repriced.
    assert_eq!(
        market.update_region_price(CHARLIE, Id::U128(raw + 1), 1),
        Err(MarketError::RegionNotListed)
    );
}

#[test]
fn unlist_region_works() {
    let (mut registry, mut market, raw, _region) = setup();
    let ledger = MockLedger::at_block(0);

    market
        .list_region(&mut registry, &ledger, CHARLIE, MARKET, DEPOSIT, Id::U128(raw), 10, None)
        .unwrap();

    let mut ledger = MockLedger::at_block(0);
    assert_eq!(
        market.unlist_region(&mut registry, &mut ledger, CHARLIE, MARKET, Id::U128(raw)),
        Ok(RegionUnlisted { region_id: raw, caller: CHARLIE })
    );

    // The region went back to the seller, the deposit to the caller.
    assert_eq!(registry.owner_of(Id::U128(raw)), Some(CHARLIE));
    assert_eq!(ledger.payments, vec![(CHARLIE, DEPOSIT)]);
    assert_eq!(market.listed_regions(), vec![]);
    assert_eq!(market.listed_region(Id::U128(raw)), Ok(None));
}

#[test]
fn unlist_requires_seller_unless_expired() {
    let (mut registry, mut market, raw, _region) = setup();
    let ledger = MockLedger::at_block(0);

    market
        .list_region(&mut registry, &ledger, CHARLIE, MARKET, DEPOSIT, Id::U128(raw), 10, None)
        .unwrap();

    // While the region is live, a stranger cannot unlist it.
    let mut ledger = MockLedger::at_block(0);
    assert_eq!(
        market.unlist_region(&mut registry, &mut ledger, DAVE, MARKET, Id::U128(raw)),
        Err(MarketError::NotAllowed)
    );
    assert_eq!(market.listed_regions(), vec![raw]);

    // One timeslice before the end the region is not yet expired.
    let mut ledger = MockLedger::at_block(9 * TIMESLICE_PERIOD);
    assert_eq!(
        market.unlist_region(&mut registry, &mut ledger, DAVE, MARKET, Id::U128(raw)),
        Err(MarketError::NotAllowed)
    );

    // Once the region is expired, anyone may prune it and collect the
    // deposit as a reward.
    let mut ledger = MockLedger::at_block(10 * TIMESLICE_PERIOD);
    assert_eq!(
        market.unlist_region(&mut registry, &mut ledger, DAVE, MARKET, Id::U128(raw)),
        Ok(RegionUnlisted { region_id: raw, caller: DAVE })
    );
    assert_eq!(ledger.payments, vec![(DAVE, DEPOSIT)]);
    assert_eq!(registry.owner_of(Id::U128(raw)), Some(CHARLIE));
    assert_eq!(market.listed_regions(), vec![]);
}

#[test]
fn unlist_payment_failure_leaves_listing() {
    let (mut registry, mut market, raw, _region) = setup();
    let ledger = MockLedger::at_block(0);

    market
        .list_region(&mut registry, &ledger, CHARLIE, MARKET, DEPOSIT, Id::U128(raw), 10, None)
        .unwrap();

    let mut ledger = MockLedger::at_block(0);
    ledger.fail_payments = true;
    assert_eq!(
        market.unlist_region(&mut registry, &mut ledger, CHARLIE, MARKET, Id::U128(raw)),
        Err(MarketError::TransferFailed)
    );
    assert_eq!(market.listed_regions(), vec![raw]);
    assert!(market.listed_region(Id::U128(raw)).unwrap().is_some());
}

#[test]
fn purchase_region_works() {
    let (mut registry, mut market, raw, _region) = setup();
    let ledger = MockLedger::at_block(0);

    market
        .list_region(&mut registry, &ledger, CHARLIE, MARKET, DEPOSIT, Id::U128(raw), 10, Some(DAVE))
        .unwrap();

    // At timeslice 0 the region has not started: 8 timeslices at price
    // 10 each, full occupancy.
    let mut ledger = MockLedger::at_block(0);
    assert_eq!(
        market.purchase_region(&mut registry, &mut ledger, BOB, MARKET, 80, Id::U128(raw), 0),
        Ok(RegionPurchased { region_id: raw, buyer: BOB, total_price: 80 })
    );

    // The buyer holds the wrapped region, the sale recipient got the
    // payment, and the listing is gone.
    assert_eq!(registry.owner_of(Id::U128(raw)), Some(BOB));
    assert_eq!(ledger.payments, vec![(DAVE, 80)]);
    assert_eq!(market.listed_regions(), vec![]);
    assert_eq!(market.listed_region(Id::U128(raw)), Ok(None));

    // Purchasing again fails: the region is no longer listed.
    assert_eq!(
        market.purchase_region(&mut registry, &mut ledger, BOB, MARKET, 80, Id::U128(raw), 0),
        Err(MarketError::RegionNotListed)
    );
}

#[test]
fn purchase_underpaying_fails() {
    let (mut registry, mut market, raw, _region) = setup();
    let ledger = MockLedger::at_block(0);

    market
        .list_region(&mut registry, &ledger, CHARLIE, MARKET, DEPOSIT, Id::U128(raw), 10, None)
        .unwrap();

    // One unit below the computed price of 80.
    let mut ledger = MockLedger::at_block(0);
    assert_eq!(
        market.purchase_region(&mut registry, &mut ledger, BOB, MARKET, 79, Id::U128(raw), 0),
        Err(MarketError::InsufficientFunds)
    );

    // The listing remains intact.
    assert_eq!(market.listed_regions(), vec![raw]);
    assert!(market.listed_region(Id::U128(raw)).unwrap().is_some());
    assert_eq!(registry.owner_of(Id::U128(raw)), Some(MARKET));
    assert_eq!(ledger.payments, vec![]);
}

#[test]
fn purchase_with_stale_metadata_version_fails() {
    let (mut registry, mut market, raw, _region) = setup();
    let ledger = MockLedger::at_block(0);

    market
        .list_region(&mut registry, &ledger, CHARLIE, MARKET, DEPOSIT, Id::U128(raw), 10, None)
        .unwrap();

    // The buyer expects a version that is not the pinned one.
    let mut ledger = MockLedger::at_block(0);
    assert_eq!(
        market.purchase_region(&mut registry, &mut ledger, BOB, MARKET, 80, Id::U128(raw), 1),
        Err(MarketError::MetadataNotMatching)
    );

    // Listing, escrow and payments are all unchanged.
    assert_eq!(market.listed_regions(), vec![raw]);
    assert!(market.listed_region(Id::U128(raw)).unwrap().is_some());
    assert_eq!(registry.owner_of(Id::U128(raw)), Some(MARKET));
    assert_eq!(ledger.payments, vec![]);
}

#[test]
fn purchase_leaves_listing_when_transfer_fails() {
    let (registry, mut market, raw, _region) = setup();
    let mut registry = FlakyRegistry { inner: registry, fail_transfers: false };
    let ledger = MockLedger::at_block(0);

    market
        .list_region(&mut registry, &ledger, CHARLIE, MARKET, DEPOSIT, Id::U128(raw), 10, None)
        .unwrap();

    // The registry refuses the custody transfer mid-purchase.
    registry.fail_transfers = true;
    let mut ledger = MockLedger::at_block(0);
    assert_eq!(
        market.purchase_region(&mut registry, &mut ledger, BOB, MARKET, 80, Id::U128(raw), 0),
        Err(MarketError::XcRegionsPsp34Error(PSP34Error::SafeTransferCheckFailed))
    );

    // No partial removal: listing and index are untouched, nothing was paid.
    assert_eq!(market.listed_regions(), vec![raw]);
    assert!(market.listed_region(Id::U128(raw)).unwrap().is_some());
    assert_eq!(ledger.payments, vec![]);
}

#[test]
fn region_price_works() {
    let (mut registry, mut market, raw, _region) = setup();
    let ledger = MockLedger::at_block(0);

    // An unlisted region has no price.
    assert_eq!(
        market.region_price(&registry, &ledger, Id::U128(raw)),
        Err(MarketError::RegionNotListed)
    );

    market
        .list_region(&mut registry, &ledger, CHARLIE, MARKET, DEPOSIT, Id::U128(raw), 10, None)
        .unwrap();

    assert_eq!(market.region_price(&registry, &ledger, Id::U128(raw)), Ok(80));

    // Four timeslices into the region, six remain.
    let ledger = MockLedger::at_block(4 * TIMESLICE_PERIOD);
    assert_eq!(market.region_price(&registry, &ledger, Id::U128(raw)), Ok(60));

    // At the region's end the price is exactly zero.
    let ledger = MockLedger::at_block(10 * TIMESLICE_PERIOD);
    assert_eq!(market.region_price(&registry, &ledger, Id::U128(raw)), Ok(0));
}

#[test]
fn decision_rules_hold_at_their_boundaries() {
    // Ledger-observed time: the timeslice is the block number divided by
    // the period, truncating.
    assert_eq!(timeslice_of(0, TIMESLICE_PERIOD), 0);
    assert_eq!(timeslice_of(79, 80), 0);
    assert_eq!(timeslice_of(80, 80), 1);
    assert_eq!(timeslice_of(321, 80), 4);

    // A region is expired exactly once `now` reaches its end.
    assert!(region_live(10, 9));
    assert!(!region_live(10, 10));
    assert!(!region_live(10, 11));

    // The seller may always unlist; anyone may once the region expired.
    assert!(may_unlist(CHARLIE, CHARLIE, 0, 10));
    assert!(!may_unlist(DAVE, CHARLIE, 9, 10));
    assert!(may_unlist(DAVE, CHARLIE, 10, 10));

    // A purchase settles only when the attached value covers the ask and
    // the expected version matches the pinned one, in that order.
    let listing = Listing {
        seller: CHARLIE,
        timeslice_price: 10,
        sale_recepient: CHARLIE,
        metadata_version: 2,
    };
    assert_eq!(check_purchase_terms(&listing, 80, 80, 2), Ok(()));
    assert_eq!(check_purchase_terms(&listing, 80, 79, 2), Err(MarketError::InsufficientFunds));
    assert_eq!(check_purchase_terms(&listing, 80, 79, 1), Err(MarketError::InsufficientFunds));
    assert_eq!(check_purchase_terms(&listing, 80, 80, 1), Err(MarketError::MetadataNotMatching));
}

#[test]
fn invalid_identifier_shapes_are_rejected() {
    let (mut registry, mut market, _raw, _region) = setup();
    let mut ledger = MockLedger::at_block(0);

    assert_eq!(
        market.listed_region(Id::U32(1)),
        Err(MarketError::InvalidRegionId)
    );
    assert_eq!(
        market.region_price(&registry, &ledger, Id::U64(1)),
        Err(MarketError::InvalidRegionId)
    );
    assert_eq!(
        market.list_region(&mut registry, &ledger, CHARLIE, MARKET, DEPOSIT, Id::U8(1), 10, None),
        Err(MarketError::InvalidRegionId)
    );
    assert_eq!(
        market.unlist_region(&mut registry, &mut ledger, CHARLIE, MARKET, Id::U16(1)),
        Err(MarketError::InvalidRegionId)
    );
    assert_eq!(
        market.update_region_price(CHARLIE, Id::Bytes(vec![1, 2, 3]), 10),
        Err(MarketError::InvalidRegionId)
    );
    assert_eq!(
        market.purchase_region(&mut registry, &mut ledger, BOB, MARKET, 80, Id::U32(1), 0),
        Err(MarketError::InvalidRegionId)
    );
}
