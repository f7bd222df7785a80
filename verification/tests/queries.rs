use sytemap::contract::SytemapRegistry;
use sytemap::error::SytemapRegistryError;
use sytemap::types::PropertyInfoPayload;
use sytemap::util::{
    all_properties_exists, check_nft_address_exists, check_pvn_exists,
    get_all_property_verification_numbers, get_nft_address_to_token_id, get_property_info,
    get_token_metadata, token_metadata_exists,
};

fn payload(pvn: u64, nft_address: &str, owner: &str, price: u64) -> PropertyInfoPayload {
    PropertyInfoPayload {
        price_of_plot: price,
        property_verification_no: pvn,
        buyer_wallet_id: String::from(owner),
        plot_no: String::from("Plot123"),
        size_of_plot: String::from("10x10"),
        coordinate_of_plot: String::from("12.34, 56.78"),
        token_url: String::from("http://token.url"),
        estate_name: String::from("Estate XYZ"),
        plot_url: String::from("http://plot.url"),
        date_of_allocation: String::from("2024-08-01"),
        estate_company_name: String::from("Estate Co."),
        nft_address: String::from(nft_address),
    }
}

fn registry_with_three_records() -> SytemapRegistry {
    let mut registry = SytemapRegistry::new();
    registry
        .safe_mint_new_property_info(payload(1, "X", "addrX", 100), 0)
        .unwrap();
    registry
        .safe_mint_new_property_info(payload(2, "Y", "addrX", 200), 0)
        .unwrap();
    registry
        .safe_mint_new_property_info(payload(3, "Z", "addrY", 300), 0)
        .unwrap();
    registry
}

#[test]
fn list_all_returns_records_in_mint_order() {
    let registry = registry_with_three_records();

    let all = registry.get_all_minted_property_details().unwrap();

    assert_eq!(all.len(), 3);
    assert_eq!(all[0].property_verification_no, 1);
    assert_eq!(all[1].property_verification_no, 2);
    assert_eq!(all[2].property_verification_no, 3);
}

#[test]
fn list_owned_by_is_the_owned_subsequence_in_order() {
    let registry = registry_with_three_records();

    let all = registry.get_all_minted_property_details().unwrap();
    let owned = registry.get_all_property_by_owner(String::from("addrX")).unwrap();

    assert_eq!(owned.len(), 2);
    assert_eq!(owned[0].property_verification_no, all[0].property_verification_no);
    assert_eq!(owned[1].property_verification_no, all[1].property_verification_no);
    for record in &owned {
        assert_eq!(record.buyer_wallet_id, "addrX");
    }

    let owned_y = registry.get_all_property_by_owner(String::from("addrY")).unwrap();
    assert_eq!(owned_y.len(), 1);
    assert_eq!(owned_y[0].property_verification_no, 3);

    let owned_none = registry.get_all_property_by_owner(String::from("addrZ")).unwrap();
    assert_eq!(owned_none.len(), 0);
}

#[test]
fn total_minted_equals_list_all_length_and_master_index_length() {
    let mut registry = SytemapRegistry::new();
    for step in 0..5u64 {
        registry
            .safe_mint_new_property_info(
                payload(100 + step, &format!("nft{}", step), "addrX", 1 + step),
                0,
            )
            .unwrap();
        let total = registry.get_number_of_property_minted().unwrap();
        let listed = registry.get_all_minted_property_details().unwrap();
        let index = get_all_property_verification_numbers(&registry);
        assert_eq!(total, listed.len() as u64);
        assert_eq!(total, index.len() as u64);
    }
}

#[test]
fn master_index_keeps_insertion_order() {
    let registry = registry_with_three_records();

    assert_eq!(get_all_property_verification_numbers(&registry), vec![1, 2, 3]);
}

#[test]
fn get_owner_of_pvn_returns_owner_or_not_found() {
    let registry = registry_with_three_records();

    assert_eq!(registry.get_owner_of_pvn(3), Ok(String::from("addrY")));
    assert_eq!(registry.get_owner_of_pvn(99), Err(SytemapRegistryError::PropertyNotFound));
}

#[test]
fn lookups_miss_with_property_not_found() {
    let registry = SytemapRegistry::new();

    assert_eq!(
        registry.get_property_info_details_by_pvn(1).unwrap_err(),
        SytemapRegistryError::PropertyNotFound
    );
    assert_eq!(
        registry
            .get_property_info_by_nft_address(String::from("nftA"))
            .unwrap_err(),
        SytemapRegistryError::PropertyNotFound
    );
    assert_eq!(
        get_nft_address_to_token_id(&registry, String::from("nftA")),
        Err(SytemapRegistryError::PropertyNotFound)
    );
    assert_eq!(
        get_property_info(&registry, 1).unwrap_err(),
        SytemapRegistryError::PropertyNotFound
    );
    assert_eq!(
        get_token_metadata(&registry).unwrap_err(),
        SytemapRegistryError::PropertyNotFound
    );
}

#[test]
fn existence_checks_follow_the_stores() {
    let mut registry = SytemapRegistry::new();
    assert!(!token_metadata_exists(&registry));
    assert!(!all_properties_exists(&registry));
    assert!(!check_pvn_exists(&registry, 1));
    assert!(!check_nft_address_exists(&registry, String::from("X")));

    registry
        .safe_mint_new_property_info(payload(1, "X", "addrX", 100), 0)
        .unwrap();

    assert!(!token_metadata_exists(&registry));
    assert!(all_properties_exists(&registry));
    assert!(check_pvn_exists(&registry, 1));
    assert!(check_nft_address_exists(&registry, String::from("X")));
}

#[test]
fn metadata_is_stored_verbatim() {
    let mut registry = SytemapRegistry::new();
    registry
        .initialize(
            String::from("Sytemap"),
            String::from("SYM"),
            String::from("http://metadata.url"),
        )
        .unwrap();

    let metadata = get_token_metadata(&registry).unwrap();
    assert_eq!(metadata.sytemap_name, "Sytemap");
    assert_eq!(metadata.sytemap_symbol, "SYM");
    assert_eq!(metadata.metadata_uri, "http://metadata.url");
}

#[test]
fn mint_does_not_require_initialization() {
    let mut registry = SytemapRegistry::new();

    let result = registry.safe_mint_new_property_info(payload(7, "nftA", "addrX", 100), 0);

    assert!(result.is_ok());
    assert_eq!(registry.get_number_of_property_minted(), Ok(1));
}

#[test]
fn nft_address_resolves_through_token_id_mapping() {
    let registry = registry_with_three_records();

    let token_id = get_nft_address_to_token_id(&registry, String::from("Y")).unwrap();
    assert_eq!(token_id, 2);
    let record = get_property_info(&registry, token_id).unwrap();
    assert_eq!(record.property_verification_no, 2);
}

#[test]
fn mint_publishes_one_creation_event_with_record_fields() {
    let mut registry = SytemapRegistry::new();
    registry
        .safe_mint_new_property_info(payload(12345, "nftA", "addrX", 100_000), 77)
        .unwrap();

    assert_eq!(registry.events.property_created_events.len(), 1);
    let event = &registry.events.property_created_events[0];
    assert_eq!(event.plot_no, "Plot123");
    assert_eq!(event.property_verification_no, 12345);
    assert_eq!(event.token_id, 1);
    assert_eq!(event.timestamp, 77);
    assert_eq!(event.price_of_plot, 100_000);
    assert_eq!(event.buyer_wallet_id, "addrX");
    assert_eq!(registry.events.price_changed_events.len(), 0);
}

#[test]
fn price_update_publishes_one_price_change_event() {
    let mut registry = SytemapRegistry::new();
    registry
        .safe_mint_new_property_info(payload(12345, "nftA", "addrX", 100_000), 0)
        .unwrap();

    registry.change_property_price_by_owner(12345, 250_000).unwrap();

    assert_eq!(registry.events.price_changed_events.len(), 1);
    let event = &registry.events.price_changed_events[0];
    assert_eq!(event.owner, "addrX");
    assert_eq!(event.property_verification_no, 12345);
    assert_eq!(event.new_price, 250_000);
    assert_eq!(registry.events.property_created_events.len(), 1);
}

#[test]
fn failed_operations_publish_no_events() {
    let mut registry = SytemapRegistry::new();
    registry
        .safe_mint_new_property_info(payload(1, "X", "addrX", 100), 0)
        .unwrap();

    let _ = registry.safe_mint_new_property_info(payload(1, "Y", "addrY", 100), 0);
    let _ = registry.change_property_price_by_owner(1, 0);
    let _ = registry.change_property_price_by_owner(99, 10);

    assert_eq!(registry.events.property_created_events.len(), 1);
    assert_eq!(registry.events.price_changed_events.len(), 0);
    assert_eq!(registry.events.base_uri_updated_events.len(), 0);
}

#[test]
fn base_uri_update_event_is_recorded() {
    let mut registry = SytemapRegistry::new();

    registry
        .events
        .emit_base_uri_updated_event(String::from("http://old"), String::from("http://new"));

    assert_eq!(registry.events.base_uri_updated_events.len(), 1);
    assert_eq!(registry.events.base_uri_updated_events[0].old_base_uri, "http://old");
    assert_eq!(registry.events.base_uri_updated_events[0].new_base_uri, "http://new");
}
