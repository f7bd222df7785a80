use vstd::prelude::*;

verus! {

use crate::contract::SytemapRegistry;
use crate::error::SytemapRegistryError;
use crate::types::{PropertyInfo, TokenMetadata};

//********** Storage utilities **********//

/// Checks whether a property record exists for the given verification number.
pub fn check_pvn_exists(registry: &SytemapRegistry, pvn: u64) -> (r: bool)
    ensures
        r == registry.has_pvn(pvn),
{
    let n = registry.properties.len();
    let mut i: usize = 0;
    while i < n
        invariant
            n == registry.records().len(),
            0 <= i <= n,
            forall|j: int| 0 <= j < i ==> registry.records()[j].property_verification_no != pvn,
        decreases n - i,
    {
        if registry.properties[i].property_verification_no == pvn {
            return true;
        }
        i += 1;
    }
    false
}

/// Checks whether an NFT-address-to-token-id mapping exists.
pub fn check_nft_address_exists(registry: &SytemapRegistry, nft_address: String) -> (r: bool)
    ensures
        r == registry.has_nft_mapping(nft_address@),
{
    let n = registry.nft_address_to_token_id.len();
    let mut i: usize = 0;
    while i < n
        invariant
            n == registry.nft_address_to_token_id@.len(),
            0 <= i <= n,
            forall|j: int|
                0 <= j < i ==> registry.nft_address_to_token_id@[j].0@ != nft_address@,
        decreases n - i,
    {
        if registry.nft_address_to_token_id[i].0 == nft_address {
            return true;
        }
        i += 1;
    }
    false
}

/// Checks whether the metadata singleton exists.
pub fn token_metadata_exists(registry: &SytemapRegistry) -> (r: bool)
    ensures
        r == (registry.token_metadata is Some),
{
    registry.token_metadata.is_some()
}

/// Checks whether the master index has ever been written.
pub fn all_properties_exists(registry: &SytemapRegistry) -> (r: bool)
    ensures
        r == (registry.all_properties@.len() > 0),
{
    registry.all_properties.len() > 0
}

/// Retrieves the metadata singleton.
pub fn get_token_metadata(registry: &SytemapRegistry) -> (r: Result<
    TokenMetadata,
    SytemapRegistryError,
>)
    ensures
        match r {
            Ok(metadata) => registry.token_metadata == Some(metadata),
            Err(e) => registry.token_metadata is None && e == SytemapRegistryError::PropertyNotFound,
        },
{
    match &registry.token_metadata {
        Some(metadata) => Ok(metadata.clone()),
        None => Err(SytemapRegistryError::PropertyNotFound),
    }
}

/// Retrieves a copy of the master index of all verification numbers.
pub fn get_all_property_verification_numbers(registry: &SytemapRegistry) -> (r: Vec<u64>)
    ensures
        r@ == registry.all_properties@,
{
    let n = registry.all_properties.len();
    let mut out: Vec<u64> = Vec::new();
    let mut i: usize = 0;
    while i < n
        invariant
            n == registry.all_properties@.len(),
            0 <= i <= n,
            out@ == registry.all_properties@.take(i as int),
        decreases n - i,
    {
        out.push(registry.all_properties[i]);
        proof {
            assert(out@ =~= registry.all_properties@.take(i + 1 as int));
        }
        i += 1;
    }
    proof {
        assert(out@ =~= registry.all_properties@);
    }
    out
}

//********** Token-id allocator **********//

/// Issues the next token id: returns the current counter value and persists
/// its successor for the following call. The counter's lazy baseline is one.
pub fn get_next_token_id(registry: &mut SytemapRegistry) -> (r: Result<
    u64,
    SytemapRegistryError,
>)
    requires
        old(registry).token_counter() < u64::MAX,
    ensures
        r == Ok::<u64, SytemapRegistryError>(old(registry).token_counter()),
        final(registry).next_token_id == old(registry).token_counter() + 1,
        final(registry).token_metadata == old(registry).token_metadata,
        final(registry).properties == old(registry).properties,
        final(registry).nft_address_to_token_id == old(registry).nft_address_to_token_id,
        final(registry).pvn_to_token_id == old(registry).pvn_to_token_id,
        final(registry).all_properties == old(registry).all_properties,
        final(registry).events == old(registry).events,
{
    let next_token_id = if registry.next_token_id == 0 {
        1
    } else {
        registry.next_token_id
    };
    registry.next_token_id = next_token_id + 1;
    Ok(next_token_id)
}

/// Establishes the token-id allocator's baseline: a counter that has never
/// been written behaves as if it held one, and this makes that explicit.
pub fn initialize_token_id_tracker(registry: &mut SytemapRegistry)
    ensures
        final(registry).next_token_id == old(registry).token_counter(),
        final(registry).token_counter() == old(registry).token_counter(),
        final(registry).token_metadata == old(registry).token_metadata,
        final(registry).properties == old(registry).properties,
        final(registry).nft_address_to_token_id == old(registry).nft_address_to_token_id,
        final(registry).pvn_to_token_id == old(registry).pvn_to_token_id,
        final(registry).all_properties == old(registry).all_properties,
        final(registry).events == old(registry).events,
{
    if registry.next_token_id == 0 {
        registry.next_token_id = 1;
    }
}

//********** Store writes **********//

/// Persists a property record under its verification number: an
/// unconditional overwrite, used both for the initial mint and for later
/// price updates.
pub fn mint_property_info(
    registry: &mut SytemapRegistry,
    pvn: u64,
    property_info: &PropertyInfo,
) -> (r: Result<(), SytemapRegistryError>)
    requires
        property_info.property_verification_no == pvn,
        old(registry).pvns_unique(),
    ensures
        r == Ok::<(), SytemapRegistryError>(()),
        old(registry).has_pvn(pvn) ==> final(registry).properties@ == old(registry).properties@.update(old(registry).pvn_index(pvn), *property_info),
        !old(registry).has_pvn(pvn) ==> final(registry).properties@ == old(registry).properties@.push(*property_info),
        final(registry).token_metadata == old(registry).token_metadata,
        final(registry).next_token_id == old(registry).next_token_id,
        final(registry).nft_address_to_token_id == old(registry).nft_address_to_token_id,
        final(registry).pvn_to_token_id == old(registry).pvn_to_token_id,
        final(registry).all_properties == old(registry).all_properties,
        final(registry).events == old(registry).events,
{
    let n = registry.properties.len();
    let mut i: usize = 0;
    while i < n
        invariant
            *registry == *old(registry),
            registry.pvns_unique(),
            n == registry.records().len(),
            0 <= i <= n,
            forall|j: int| 0 <= j < i ==> registry.records()[j].property_verification_no != pvn,
        decreases n - i,
    {
        if registry.properties[i].property_verification_no == pvn {
            proof {
                registry.lemma_pvn_index_is(pvn, i as int);
            }
            registry.properties[i] = property_info.clone();
            return Ok(());
        }
        i += 1;
    }
    registry.properties.push(property_info.clone());
    Ok(())
}

/// Persists the metadata singleton.
pub fn save_token_metadata(registry: &mut SytemapRegistry, token_metadata: TokenMetadata)
    ensures
        final(registry).token_metadata == Some(token_metadata),
        final(registry).next_token_id == old(registry).next_token_id,
        final(registry).properties == old(registry).properties,
        final(registry).nft_address_to_token_id == old(registry).nft_address_to_token_id,
        final(registry).pvn_to_token_id == old(registry).pvn_to_token_id,
        final(registry).all_properties == old(registry).all_properties,
        final(registry).events == old(registry).events,
{
    registry.token_metadata = Some(token_metadata);
}

/// Persists an NFT-address-to-token-id mapping: an unconditional overwrite
/// of the entry for that address.
pub fn save_nft_address_to_token_id(
    registry: &mut SytemapRegistry,
    nft_address: String,
    token_id: u64,
) -> (r: Result<(), SytemapRegistryError>)
    requires
        old(registry).nft_mappings_unique(),
    ensures
        r == Ok::<(), SytemapRegistryError>(()),
        old(registry).has_nft_mapping(nft_address@) ==> final(registry).nft_address_to_token_id@ == old(registry).nft_address_to_token_id@.update(
            old(registry).nft_mapping_index(nft_address@),
            (nft_address, token_id),
        ),
        !old(registry).has_nft_mapping(nft_address@) ==> final(registry).nft_address_to_token_id@ == old(registry).nft_address_to_token_id@.push(
            (nft_address, token_id),
        ),
        final(registry).token_metadata == old(registry).token_metadata,
        final(registry).next_token_id == old(registry).next_token_id,
        final(registry).properties == old(registry).properties,
        final(registry).pvn_to_token_id == old(registry).pvn_to_token_id,
        final(registry).all_properties == old(registry).all_properties,
        final(registry).events == old(registry).events,
{
    let n = registry.nft_address_to_token_id.len();
    let mut i: usize = 0;
    while i < n
        invariant
            *registry == *old(registry),
            registry.nft_mappings_unique(),
            n == registry.nft_address_to_token_id@.len(),
            0 <= i <= n,
            forall|j: int|
                0 <= j < i ==> registry.nft_address_to_token_id@[j].0@ != nft_address@,
        decreases n - i,
    {
        if registry.nft_address_to_token_id[i].0 == nft_address {
            proof {
                registry.lemma_nft_mapping_index_is(nft_address@, i as int);
            }
            registry.nft_address_to_token_id[i] = (nft_address, token_id);
            return Ok(());
        }
        i += 1;
    }
    registry.nft_address_to_token_id.push((nft_address, token_id));
    Ok(())
}

/// Replaces the master index of all verification numbers.
pub fn update_all_properties(registry: &mut SytemapRegistry, all_properties: Vec<u64>) -> (r:
    Result<(), SytemapRegistryError>)
    ensures
        r == Ok::<(), SytemapRegistryError>(()),
        final(registry).all_properties == all_properties,
        final(registry).token_metadata == old(registry).token_metadata,
        final(registry).next_token_id == old(registry).next_token_id,
        final(registry).properties == old(registry).properties,
        final(registry).nft_address_to_token_id == old(registry).nft_address_to_token_id,
        final(registry).pvn_to_token_id == old(registry).pvn_to_token_id,
        final(registry).events == old(registry).events,
{
    registry.all_properties = all_properties;
    Ok(())
}

/// Persists a property record under its verification number; same storage
/// operation as [`mint_property_info`], kept for the price-update path.
pub fn save_property_info(
    registry: &mut SytemapRegistry,
    pvn: u64,
    property_info: &PropertyInfo,
) -> (r: Result<(), SytemapRegistryError>)
    requires
        property_info.property_verification_no == pvn,
        old(registry).pvns_unique(),
    ensures
        r == Ok::<(), SytemapRegistryError>(()),
        old(registry).has_pvn(pvn) ==> final(registry).properties@ == old(registry).properties@.update(old(registry).pvn_index(pvn), *property_info),
        !old(registry).has_pvn(pvn) ==> final(registry).properties@ == old(registry).properties@.push(*property_info),
        final(registry).token_metadata == old(registry).token_metadata,
        final(registry).next_token_id == old(registry).next_token_id,
        final(registry).nft_address_to_token_id == old(registry).nft_address_to_token_id,
        final(registry).pvn_to_token_id == old(registry).pvn_to_token_id,
        final(registry).all_properties == old(registry).all_properties,
        final(registry).events == old(registry).events,
{
    mint_property_info(registry, pvn, property_info)
}

/// Persists a verification-number-to-token-id mapping: an unconditional
/// overwrite of the entry for that number.
pub fn save_pvn_to_token_id(registry: &mut SytemapRegistry, pvn: u64, token_id: u64) -> (r:
    Result<(), SytemapRegistryError>)
    requires
        old(registry).pvn_mappings_unique(),
    ensures
        r == Ok::<(), SytemapRegistryError>(()),
        old(registry).has_pvn_mapping(pvn) ==> final(registry).pvn_to_token_id@ == old(registry).pvn_to_token_id@.update(old(registry).pvn_mapping_index(pvn), (pvn, token_id)),
        !old(registry).has_pvn_mapping(pvn) ==> final(registry).pvn_to_token_id@ == old(registry).pvn_to_token_id@.push((pvn, token_id)),
        final(registry).token_metadata == old(registry).token_metadata,
        final(registry).next_token_id == old(registry).next_token_id,
        final(registry).properties == old(registry).properties,
        final(registry).nft_address_to_token_id == old(registry).nft_address_to_token_id,
        final(registry).all_properties == old(registry).all_properties,
        final(registry).events == old(registry).events,
{
    let n = registry.pvn_to_token_id.len();
    let mut i: usize = 0;
    while i < n
        invariant
            *registry == *old(registry),
            registry.pvn_mappings_unique(),
            n == registry.pvn_to_token_id@.len(),
            0 <= i <= n,
            forall|j: int| 0 <= j < i ==> registry.pvn_to_token_id@[j].0 != pvn,
        decreases n - i,
    {
        if registry.pvn_to_token_id[i].0 == pvn {
            proof {
                registry.lemma_pvn_mapping_index_is(pvn, i as int);
            }
            registry.pvn_to_token_id[i] = (pvn, token_id);
            return Ok(());
        }
        i += 1;
    }
    registry.pvn_to_token_id.push((pvn, token_id));
    Ok(())
}

//********** Store reads **********//

/// Retrieves the property record carrying the given token id.
pub fn get_property_info(registry: &SytemapRegistry, token_id: u64) -> (r: Result<
    PropertyInfo,
    SytemapRegistryError,
>)
    requires
        registry.token_ids_increasing(),
    ensures
        registry.has_token_id(token_id) ==> r == Ok::<PropertyInfo, SytemapRegistryError>(
            registry.records()[registry.token_index(token_id)],
        ),
        !registry.has_token_id(token_id) ==> r == Err::<PropertyInfo, SytemapRegistryError>(
            SytemapRegistryError::PropertyNotFound,
        ),
{
    let n = registry.properties.len();
    let mut i: usize = 0;
    while i < n
        invariant
            registry.token_ids_increasing(),
            n == registry.records().len(),
            0 <= i <= n,
            forall|j: int| 0 <= j < i ==> registry.records()[j].token_id != token_id,
        decreases n - i,
    {
        if registry.properties[i].token_id == token_id {
            proof {
                registry.lemma_token_index_is(token_id, i as int);
            }
            return Ok(registry.properties[i].clone());
        }
        i += 1;
    }
    Err(SytemapRegistryError::PropertyNotFound)
}

/// Retrieves the token id the NFT-address index maps the given address to.
pub fn get_nft_address_to_token_id(registry: &SytemapRegistry, nft_address: String) -> (r: Result<
    u64,
    SytemapRegistryError,
>)
    requires
        registry.nft_mappings_unique(),
    ensures
        registry.has_nft_mapping(nft_address@) ==> r == Ok::<u64, SytemapRegistryError>(
            registry.nft_token_of(nft_address@),
        ),
        !registry.has_nft_mapping(nft_address@) ==> r == Err::<u64, SytemapRegistryError>(
            SytemapRegistryError::PropertyNotFound,
        ),
{
    let n = registry.nft_address_to_token_id.len();
    let mut i: usize = 0;
    while i < n
        invariant
            registry.nft_mappings_unique(),
            n == registry.nft_address_to_token_id@.len(),
            0 <= i <= n,
            forall|j: int|
                0 <= j < i ==> registry.nft_address_to_token_id@[j].0@ != nft_address@,
        decreases n - i,
    {
        if registry.nft_address_to_token_id[i].0 == nft_address {
            proof {
                registry.lemma_nft_mapping_index_is(nft_address@, i as int);
            }
            return Ok(registry.nft_address_to_token_id[i].1);
        }
        i += 1;
    }
    Err(SytemapRegistryError::PropertyNotFound)
}

/// Retrieves the property record with the given verification number.
pub fn get_property_info_by_pvn(
    registry: &SytemapRegistry,
    property_verification_no: u64,
) -> (r: Result<PropertyInfo, SytemapRegistryError>)
    requires
        registry.pvns_unique(),
    ensures
        registry.has_pvn(property_verification_no) ==> r == Ok::<
            PropertyInfo,
            SytemapRegistryError,
        >(registry.record_of(property_verification_no)),
        !registry.has_pvn(property_verification_no) ==> r == Err::<
            PropertyInfo,
            SytemapRegistryError,
        >(SytemapRegistryError::PropertyNotFound),
{
    let n = registry.properties.len();
    let mut i: usize = 0;
    while i < n
        invariant
            registry.pvns_unique(),
            n == registry.records().len(),
            0 <= i <= n,
            forall|j: int|
                0 <= j < i ==> registry.records()[j].property_verification_no
                    != property_verification_no,
        decreases n - i,
    {
        if registry.properties[i].property_verification_no == property_verification_no {
            proof {
                registry.lemma_pvn_index_is(property_verification_no, i as int);
            }
            return Ok(registry.properties[i].clone());
        }
        i += 1;
    }
    Err(SytemapRegistryError::PropertyNotFound)
}

} // verus!
