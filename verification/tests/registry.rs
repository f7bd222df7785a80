use sytemap::contract::SytemapRegistry;
use sytemap::error::SytemapRegistryError;
use sytemap::types::PropertyInfoPayload;
use sytemap::util::{get_property_info_by_pvn, token_metadata_exists};

fn payload(pvn: u64, nft_address: &str, owner: &str, price: u64) -> PropertyInfoPayload {
    PropertyInfoPayload {
        price_of_plot: price,
        property_verification_no: pvn,
        buyer_wallet_id: String::from(owner),
        plot_no: String::from("Plot123"),
        size_of_plot: String::from("10x10"),
        coordinate_of_plot: String::from("12.34, 56.78"),
        token_url: String::from("http://token.url"),
        estate_name: String::from("Estate XYZ"),
        plot_url: String::from("http://plot.url"),
        date_of_allocation: String::from("2024-08-01"),
        estate_company_name: String::from("Estate Co."),
        nft_address: String::from(nft_address),
    }
}

fn initialized_registry() -> SytemapRegistry {
    let mut registry = SytemapRegistry::new();
    registry
        .initialize(
            String::from("Sytemap"),
            String::from("SYM"),
            String::from("http://metadata.url"),
        )
        .unwrap();
    registry
}

#[test]
fn test_initialize_success() {
    let mut registry = SytemapRegistry::new();

    let result = registry.initialize(
        String::from("Sytemap"),
        String::from("SYM"),
        String::from("http://metadata.url"),
    );

    assert!(result.is_ok());
    assert_eq!(token_metadata_exists(&registry), true);
}

#[test]
fn test_initialize_already_initialized() {
    let mut registry = SytemapRegistry::new();

    registry
        .initialize(
            String::from("Sytemap"),
            String::from("SYM"),
            String::from("http://metadata.url"),
        )
        .unwrap();

    let result = registry.initialize(
        String::from("Sytemap"),
        String::from("SYM"),
        String::from("http://metadata.url"),
    );

    assert_eq!(result, Err(SytemapRegistryError::AlreadyInitialized));
}

#[test]
fn test_safe_mint_new_property_info_success() {
    let mut registry = initialized_registry();

    let result = registry
        .safe_mint_new_property_info(payload(12345, "nft_address", "buyer_wallet_id", 100_000), 0);

    assert!(result.is_ok());
    assert_eq!(get_property_info_by_pvn(&registry, 12345).is_ok(), true);
}

#[test]
fn mint_twice_same_pvn_rejected_and_record_unchanged() {
    let mut registry = initialized_registry();
    registry
        .safe_mint_new_property_info(payload(12345, "nftA", "addrX", 100_000), 11)
        .unwrap();

    let second = registry.safe_mint_new_property_info(payload(12345, "nftB", "addrY", 5), 22);

    assert_eq!(second, Err(SytemapRegistryError::AlreadyMinted));
    let record = registry.get_property_info_details_by_pvn(12345).unwrap();
    assert_eq!(record.price_of_plot, 100_000);
    assert_eq!(record.nft_address, "nftA");
    assert_eq!(record.buyer_wallet_id, "addrX");
    assert_eq!(record.timestamp, 11);
    assert_eq!(registry.get_number_of_property_minted(), Ok(1));
}

#[test]
fn mint_same_nft_address_rejected() {
    let mut registry = initialized_registry();
    registry
        .safe_mint_new_property_info(payload(1, "nftA", "addrX", 100_000), 0)
        .unwrap();

    let second = registry.safe_mint_new_property_info(payload(2, "nftA", "addrY", 200_000), 0);

    assert_eq!(second, Err(SytemapRegistryError::NftAddressAlreadyInUse));
    assert_eq!(registry.get_number_of_property_minted(), Ok(1));
}

#[test]
fn token_ids_strictly_increasing_from_one() {
    let mut registry = initialized_registry();
    registry
        .safe_mint_new_property_info(payload(10, "nftA", "addrX", 100), 0)
        .unwrap();
    registry
        .safe_mint_new_property_info(payload(20, "nftB", "addrX", 200), 0)
        .unwrap();
    registry
        .safe_mint_new_property_info(payload(30, "nftC", "addrY", 300), 0)
        .unwrap();

    assert_eq!(registry.get_property_info_details_by_pvn(10).unwrap().token_id, 1);
    assert_eq!(registry.get_property_info_details_by_pvn(20).unwrap().token_id, 2);
    assert_eq!(registry.get_property_info_details_by_pvn(30).unwrap().token_id, 3);
}

#[test]
fn token_id_consumed_by_failed_mint_is_not_reissued() {
    let mut registry = initialized_registry();
    // Draw an id directly from the allocator, as a mint that later failed to
    // persist its record would have: the id stays consumed.
    let drawn = sytemap::util::get_next_token_id(&mut registry).unwrap();
    assert_eq!(drawn, 1);

    registry
        .safe_mint_new_property_info(payload(10, "nftA", "addrX", 100), 0)
        .unwrap();

    assert_eq!(registry.get_property_info_details_by_pvn(10).unwrap().token_id, 2);
}

#[test]
fn update_price_zero_rejected_and_price_kept() {
    let mut registry = initialized_registry();
    registry
        .safe_mint_new_property_info(payload(12345, "nftA", "addrX", 100_000), 0)
        .unwrap();

    let result = registry.change_property_price_by_owner(12345, 0);

    assert_eq!(result, Err(SytemapRegistryError::InvalidPrice));
    assert_eq!(
        registry.get_property_info_details_by_pvn(12345).unwrap().price_of_plot,
        100_000
    );
}

#[test]
fn update_price_zero_rejected_before_lookup() {
    let mut registry = initialized_registry();

    let result = registry.change_property_price_by_owner(999, 0);

    assert_eq!(result, Err(SytemapRegistryError::InvalidPrice));
}

#[test]
fn update_price_missing_record_not_found() {
    let mut registry = initialized_registry();

    let result = registry.change_property_price_by_owner(999, 50_000);

    assert_eq!(result, Err(SytemapRegistryError::PropertyNotFound));
}

#[test]
fn update_price_changes_only_the_price_field() {
    let mut registry = initialized_registry();
    registry
        .safe_mint_new_property_info(payload(12345, "nftA", "addrX", 100_000), 42)
        .unwrap();
    let before = registry.get_property_info_details_by_pvn(12345).unwrap();

    registry.change_property_price_by_owner(12345, 250_000).unwrap();

    let after = registry.get_property_info_details_by_pvn(12345).unwrap();
    assert_eq!(after.price_of_plot, 250_000);
    assert_eq!(after.property_verification_no, before.property_verification_no);
    assert_eq!(after.timestamp, before.timestamp);
    assert_eq!(after.token_id, before.token_id);
    assert_eq!(after.buyer_wallet_id, before.buyer_wallet_id);
    assert_eq!(after.plot_no, before.plot_no);
    assert_eq!(after.size_of_plot, before.size_of_plot);
    assert_eq!(after.coordinate_of_plot, before.coordinate_of_plot);
    assert_eq!(after.token_url, before.token_url);
    assert_eq!(after.estate_name, before.estate_name);
    assert_eq!(after.plot_url, before.plot_url);
    assert_eq!(after.date_of_allocation, before.date_of_allocation);
    assert_eq!(after.estate_company_name, before.estate_company_name);
    assert_eq!(after.nft_address, before.nft_address);
}

#[test]
fn scenario_mint_and_look_up_by_both_keys() {
    let mut registry = SytemapRegistry::new();
    registry
        .initialize(
            String::from("Sytemap"),
            String::from("SYM"),
            String::from("http://meta"),
        )
        .unwrap();

    let result =
        registry.safe_mint_new_property_info(payload(12345, "nftA", "addrX", 100_000), 0);
    assert!(result.is_ok());

    let by_pvn = registry.get_property_info_details_by_pvn(12345).unwrap();
    assert_eq!(by_pvn.price_of_plot, 100_000);

    let by_nft = registry
        .get_property_info_by_nft_address(String::from("nftA"))
        .unwrap();
    assert_eq!(by_nft.property_verification_no, 12345);
}

#[test]
fn scenario_three_mints_counted_per_owner() {
    let mut registry = initialized_registry();
    registry
        .safe_mint_new_property_info(payload(1, "X", "addrX", 100), 0)
        .unwrap();
    registry
        .safe_mint_new_property_info(payload(2, "Y", "addrX", 200), 0)
        .unwrap();
    registry
        .safe_mint_new_property_info(payload(3, "Z", "addrY", 300), 0)
        .unwrap();

    assert_eq!(registry.get_no_of_property_by_address(String::from("addrX")), Ok(2));
    assert_eq!(registry.get_no_of_property_by_address(String::from("addrY")), Ok(1));
    assert_eq!(registry.get_number_of_property_minted(), Ok(3));
}
