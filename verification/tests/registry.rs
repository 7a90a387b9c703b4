//! Tests of the asset registry: initializing, reading and removing region
//! metadata, the in-memory stand-in for the underlying collection, and the
//! wrapped-token interface.

use coretime_market::coretime::CoreMask;
use coretime_market::extension::BlockNumberProviderError;
use coretime_market::extension::UniquesError;
use coretime_market::coretime::Region;
use coretime_market::coretime::RegionId;
use coretime_market::uniques::ItemDetails;
use coretime_market::xc_regions::region_id;
use coretime_market::xc_regions::Id;
use coretime_market::xc_regions::Psp34;
use coretime_market::xc_regions::RegionInitialized;
use coretime_market::xc_regions::RegionMetadata;
use coretime_market::xc_regions::RegionRemoved;
use coretime_market::xc_regions::VersionedRegion;
use coretime_market::xc_regions::XcRegions;
use coretime_market::xc_regions::XcRegionsError;
use coretime_market::AccountId;

const CHARLIE: AccountId = 3;
const BOB: AccountId = 4;
const CONTRACT: AccountId = 100;

#[test]
fn mock_environment_helper_functions_work() {
    let mut xc_regions = XcRegions::new();

    let region_id_0 = region_id(0);

    // State should be empty since we haven't yet minted any regions.
    assert!(xc_regions.items.get(&0).is_none());
    assert!(xc_regions.account.get(&CHARLIE).is_none());

    // 1. Ensure mint works:
    assert!(xc_regions.mint(region_id_0, CHARLIE).is_ok());

    // Can't mint the same region twice:
    assert!(xc_regions.mint(region_id_0, CHARLIE).is_err());

    assert_eq!(
        xc_regions.items.get(&0),
        Some(&ItemDetails { owner: CHARLIE, approved: None, is_frozen: false, deposit: 0 })
    );
    assert_eq!(xc_regions.account.get(&CHARLIE), Some(&vec![region_id_0]));

    // 2. Ensure burn works:

    // Mint one more new region:
    let region_id_1 = region_id(1);
    assert!(xc_regions.mint(region_id_1, CHARLIE).is_ok());

    assert!(xc_regions.burn(region_id_0).is_ok());
    assert!(xc_regions.items.get(&0).is_none());
    assert_eq!(xc_regions.account.get(&CHARLIE), Some(&vec![region_id_1]));

    assert!(xc_regions.burn(region_id_1).is_ok());
    assert!(xc_regions.items.get(&1).is_none());
    assert!(xc_regions.account.get(&CHARLIE).is_none());

    assert!(xc_regions.burn(region_id_1).is_err());
}

#[test]
fn init_works() {
    let mut xc_regions = XcRegions::new();

    // 1. Cannot initialize a region that doesn't exist:
    assert_eq!(
        xc_regions.init(CHARLIE, CONTRACT, 0, Region::default()),
        Err(XcRegionsError::CannotInitialize)
    );

    // 2. Cannot initialize a region that is not owned by the caller:
    assert!(xc_regions.mint(region_id(0), CHARLIE).is_ok());
    assert_eq!(
        xc_regions.init(BOB, CONTRACT, 0, Region::default()),
        Err(XcRegionsError::CannotInitialize)
    );

    // 3. Initialization doesn't work with incorrect metadata:
    let invalid_metadata = Region { begin: 1, end: 2, core: 0, mask: CoreMask::default() };
    assert_eq!(
        xc_regions.init(CHARLIE, CONTRACT, 0, invalid_metadata),
        Err(XcRegionsError::InvalidMetadata)
    );

    // 4. Initialization works with correct metadata and the right caller:
    let init_result = xc_regions.init(CHARLIE, CONTRACT, 0, Region::default());
    assert_eq!(
        init_result,
        Ok(RegionInitialized { region_id: 0, metadata: Region::default(), version: 0 })
    );

    // The region gets transferred to the contract:
    assert_eq!(xc_regions.uniques_owner(0), Some(CONTRACT));

    // Charlie receives a wrapped region:
    assert_eq!(xc_regions.owner_of(Id::U128(0)), Some(CHARLIE));
    assert_eq!(xc_regions.balance_of(CHARLIE), 1);

    assert_eq!(xc_regions.regions.get(&0), Some(&Region::default()));
    assert_eq!(xc_regions.metadata_versions.get(&0), Some(&0));

    // 5. Calling init for an already initialized region will fail.
    assert_eq!(
        xc_regions.init(CHARLIE, CONTRACT, 0, Region::default()),
        Err(XcRegionsError::CannotInitialize)
    );
}

#[test]
fn remove_works() {
    let mut xc_regions = XcRegions::new();

    // Cannot remove a region that doesn't exist.
    assert_eq!(xc_regions.remove(CHARLIE, 0), Err(XcRegionsError::CannotRemove));

    // Minting and initializing a region:
    assert!(xc_regions.mint(region_id(0), CHARLIE).is_ok());
    assert!(xc_regions.init(CHARLIE, CONTRACT, 0, Region::default()).is_ok());

    // The region gets transferred to the contract:
    assert_eq!(xc_regions.uniques_owner(0), Some(CONTRACT));

    // Charlie receives a wrapped region:
    assert_eq!(xc_regions.owner_of(Id::U128(0)), Some(CHARLIE));
    assert_eq!(xc_regions.balance_of(CHARLIE), 1);

    assert_eq!(xc_regions.regions.get(&0), Some(&Region::default()));
    assert_eq!(xc_regions.metadata_versions.get(&0), Some(&0));

    // Only the owner of the wrapped region may remove it.
    assert_eq!(xc_regions.remove(BOB, 0), Err(XcRegionsError::CannotRemove));

    // Removing a region works:
    assert_eq!(xc_regions.remove(CHARLIE, 0), Ok(RegionRemoved { region_id: 0 }));

    // The region gets transferred back to Charlie and the wrapped region
    // gets burned.
    assert_eq!(xc_regions.uniques_owner(0), Some(CHARLIE));
    assert_eq!(xc_regions.owner_of(Id::U128(0)), None);
    assert_eq!(xc_regions.balance_of(CHARLIE), 0);

    // The metadata should be removed, however the metadata version should be
    // retained in the registry for this region.
    assert_eq!(xc_regions.regions.get(&0), None);
    assert_eq!(xc_regions.metadata_versions.get(&0), Some(&0));
}

#[test]
fn get_metadata_works() {
    let mut xc_regions = XcRegions::new();

    // Cannot get the metadata of a region that doesn't exist:
    assert_eq!(xc_regions.get_metadata(0), Err(XcRegionsError::MetadataNotFound));

    // Minting a region without initializing it.
    assert!(xc_regions.mint(region_id(0), CHARLIE).is_ok());
    assert_eq!(xc_regions.get_metadata(0), Err(XcRegionsError::MetadataNotFound));

    assert!(xc_regions.init(CHARLIE, CONTRACT, 0, Region::default()).is_ok());
    assert_eq!(
        xc_regions.get_metadata(0),
        Ok(VersionedRegion { version: 0, region: Region::default() })
    );
}

#[test]
fn metadata_version_gets_updated() {
    let mut xc_regions = XcRegions::new();

    assert!(xc_regions.mint(region_id(0), CHARLIE).is_ok());
    assert!(xc_regions.init(CHARLIE, CONTRACT, 0, Region::default()).is_ok());
    assert_eq!(
        xc_regions.get_metadata(0),
        Ok(VersionedRegion { version: 0, region: Region::default() })
    );

    assert!(xc_regions.remove(CHARLIE, 0).is_ok());

    assert!(xc_regions.init(CHARLIE, CONTRACT, 0, Region::default()).is_ok());
    assert_eq!(
        xc_regions.get_metadata(0),
        Ok(VersionedRegion { version: 1, region: Region::default() })
    );
}

#[test]
fn init_non_existing_region_fails() {
    let mut xc_regions = XcRegions::new();

    let raw_region_id = 0u128;
    let region = Region::default();

    assert_eq!(
        xc_regions.init(CHARLIE, CONTRACT, raw_region_id, region),
        Err(XcRegionsError::CannotInitialize)
    );
}

#[test]
fn init_checks_metadata_against_the_identifier() {
    let mut xc_regions = XcRegions::new();

    // A non-trivial region: its raw id packs begin, core and mask.
    let mask = CoreMask::from_chunk(0, 40);
    let id = RegionId { begin: 2, core: 1, mask };
    let raw = u128::from(id);
    let region = Region { begin: 2, end: 10, core: 1, mask };

    assert!(xc_regions.mint(region_id(raw), CHARLIE).is_ok());

    // Wrong begin, core or mask are each rejected:
    let wrong_begin = Region { begin: 3, ..region };
    assert_eq!(
        xc_regions.init(CHARLIE, CONTRACT, raw, wrong_begin),
        Err(XcRegionsError::InvalidMetadata)
    );
    let wrong_core = Region { core: 2, ..region };
    assert_eq!(
        xc_regions.init(CHARLIE, CONTRACT, raw, wrong_core),
        Err(XcRegionsError::InvalidMetadata)
    );
    let wrong_mask = Region { mask: CoreMask::complete(), ..region };
    assert_eq!(
        xc_regions.init(CHARLIE, CONTRACT, raw, wrong_mask),
        Err(XcRegionsError::InvalidMetadata)
    );

    // The end of the region is not part of the identifier, so it is up to
    // the matching components alone:
    assert_eq!(
        xc_regions.init(CHARLIE, CONTRACT, raw, region),
        Ok(RegionInitialized { region_id: raw, metadata: region, version: 0 })
    );
}

#[test]
fn status_codes_decode_to_errors() {
    assert_eq!(UniquesError::from_status_code(0), Ok(()));
    assert_eq!(UniquesError::from_status_code(98), Err(UniquesError::OriginCannotBeCaller));
    assert_eq!(UniquesError::from_status_code(99), Err(UniquesError::RuntimeError));
    assert_eq!(UniquesError::from_status_code(7), Err(UniquesError::UnknownStatusCode));

    assert_eq!(BlockNumberProviderError::from_status_code(0), Ok(()));
    assert_eq!(
        BlockNumberProviderError::from_status_code(98),
        Err(BlockNumberProviderError::OriginCannotBeCaller)
    );
    assert_eq!(
        BlockNumberProviderError::from_status_code(99),
        Err(BlockNumberProviderError::RuntimeError)
    );
    assert_eq!(
        BlockNumberProviderError::from_status_code(1),
        Err(BlockNumberProviderError::UnknownStatusCode)
    );
}

#[test]
fn wrapped_transfer_requires_approval() {
    let mut xc_regions = XcRegions::new();

    assert!(xc_regions.mint(region_id(0), CHARLIE).is_ok());
    assert!(xc_regions.init(CHARLIE, CONTRACT, 0, Region::default()).is_ok());

    // A stranger cannot move Charlie's wrapped region.
    assert!(xc_regions.transfer(BOB, BOB, Id::U128(0), Vec::new()).is_err());
    assert_eq!(xc_regions.owner_of(Id::U128(0)), Some(CHARLIE));

    // Once approved for the token, the operator can.
    assert!(xc_regions.approve(CHARLIE, BOB, Some(Id::U128(0)), true).is_ok());
    assert!(xc_regions.allowance(CHARLIE, BOB, Some(Id::U128(0))));
    assert!(xc_regions.transfer(BOB, BOB, Id::U128(0), Vec::new()).is_ok());
    assert_eq!(xc_regions.owner_of(Id::U128(0)), Some(BOB));
    assert_eq!(xc_regions.balance_of(CHARLIE), 0);
    assert_eq!(xc_regions.balance_of(BOB), 1);

    // The approval was consumed by the transfer.
    assert!(!xc_regions.allowance(BOB, CHARLIE, Some(Id::U128(0))));

    assert_eq!(xc_regions.total_supply(), 1);
    assert_eq!(xc_regions.collection_id(), Id::U32(42));
}
