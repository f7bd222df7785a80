use vstd::prelude::*;

verus! {

use crate::error::SytemapRegistryError;
use crate::events::{PropertyPriceChanged, SytemapRegistryEvents, created_event_of_payload};
use crate::types::{PropertyInfo, PropertyInfoPayload, TokenMetadata, record_of_payload};
use crate::util::{
    check_nft_address_exists, check_pvn_exists, get_all_property_verification_numbers,
    get_next_token_id, get_nft_address_to_token_id, get_property_info,
    get_property_info_by_pvn, initialize_token_id_tracker, mint_property_info,
    save_nft_address_to_token_id, save_property_info, save_pvn_to_token_id,
    save_token_metadata, token_metadata_exists, update_all_properties,
};

/// The records of `s` owned by `owner`, in their order in `s`.
pub open spec fn owned_in(s: Seq<PropertyInfo>, owner: Seq<char>) -> Seq<PropertyInfo>
    decreases s.len(),
{
    if s.len() == 0 {
        Seq::empty()
    } else {
        let rest = owned_in(s.drop_last(), owner);
        if s.last().buyer_wallet_id@ == owner {
            rest.push(s.last())
        } else {
            rest
        }
    }
}

/// Appending a record keeps the owned records a filtered subsequence: the
/// new record joins the selection exactly when its owner matches.
pub proof fn lemma_owned_in_push(s: Seq<PropertyInfo>, owner: Seq<char>, record: PropertyInfo)
    ensures
        owned_in(s.push(record), owner) == if record.buyer_wallet_id@ == owner {
            owned_in(s, owner).push(record)
        } else {
            owned_in(s, owner)
        },
{
    assert(s.push(record).drop_last() =~= s);
    assert(s.push(record).last() == record);
}

/// The land-tokenization registry.
///
/// One value of this type is one registry instance: the whole persistent
/// state the operations read and write. The fields mirror the persisted key
/// space: the metadata singleton, the token-id counter, the property records
/// keyed by verification number, the two derived token-id indexes, and the
/// append-only master index of all verification numbers, together with the
/// notification sink.
pub struct SytemapRegistry {
    /// The metadata singleton; absent until initialization.
    pub token_metadata: Option<TokenMetadata>,
    /// The token-id counter as stored; `0` means it has never been written,
    /// in which case the allocator treats it as its baseline of `1`.
    pub next_token_id: u64,
    /// The property records, keyed by their verification number, in mint
    /// order.
    pub properties: Vec<PropertyInfo>,
    /// Derived index: NFT address to token id.
    pub nft_address_to_token_id: Vec<(String, u64)>,
    /// Derived index: verification number to token id.
    pub pvn_to_token_id: Vec<(u64, u64)>,
    /// The master index: every verification number ever minted, in mint
    /// order, append-only.
    pub all_properties: Vec<u64>,
    /// The notification sink.
    pub events: SytemapRegistryEvents,
}

impl SytemapRegistry {
    /// The minted records, in mint order.
    pub open spec fn records(self) -> Seq<PropertyInfo> {
        self.properties@
    }

    /// Whether a record exists for the given verification number.
    pub open spec fn has_pvn(self, pvn: u64) -> bool {
        exists|i: int|
            0 <= i < self.records().len() && self.records()[i].property_verification_no == pvn
    }

    /// The position of the record with the given verification number.
    pub open spec fn pvn_index(self, pvn: u64) -> int {
        choose|i: int|
            0 <= i < self.records().len() && self.records()[i].property_verification_no == pvn
    }

    /// The record with the given verification number.
    pub open spec fn record_of(self, pvn: u64) -> PropertyInfo {
        self.records()[self.pvn_index(pvn)]
    }

    /// Whether some record carries the given NFT address.
    pub open spec fn has_nft_address(self, nft_address: Seq<char>) -> bool {
        exists|i: int|
            0 <= i < self.records().len() && self.records()[i].nft_address@ == nft_address
    }

    /// The position of the record carrying the given NFT address.
    pub open spec fn nft_index(self, nft_address: Seq<char>) -> int {
        choose|i: int|
            0 <= i < self.records().len() && self.records()[i].nft_address@ == nft_address
    }

    /// Whether some record carries the given token id.
    pub open spec fn has_token_id(self, token_id: u64) -> bool {
        exists|i: int| 0 <= i < self.records().len() && self.records()[i].token_id == token_id
    }

    /// The position of the record carrying the given token id.
    pub open spec fn token_index(self, token_id: u64) -> int {
        choose|i: int| 0 <= i < self.records().len() && self.records()[i].token_id == token_id
    }

    /// Whether the NFT-address index maps the given address.
    pub open spec fn has_nft_mapping(self, nft_address: Seq<char>) -> bool {
        exists|i: int|
            0 <= i < self.nft_address_to_token_id@.len()
                && self.nft_address_to_token_id@[i].0@ == nft_address
    }

    /// The position of the given address in the NFT-address index.
    pub open spec fn nft_mapping_index(self, nft_address: Seq<char>) -> int {
        choose|i: int|
            0 <= i < self.nft_address_to_token_id@.len()
                && self.nft_address_to_token_id@[i].0@ == nft_address
    }

    /// The token id the NFT-address index maps the given address to.
    pub open spec fn nft_token_of(self, nft_address: Seq<char>) -> u64 {
        self.nft_address_to_token_id@[self.nft_mapping_index(nft_address)].1
    }

    /// No two entries of the NFT-address index share an address.
    pub open spec fn nft_mappings_unique(self) -> bool {
        forall|i: int, j: int|
            0 <= i < j < self.nft_address_to_token_id@.len()
                ==> self.nft_address_to_token_id@[i].0@ != self.nft_address_to_token_id@[j].0@
    }

    /// Whether the verification-number index maps the given number.
    pub open spec fn has_pvn_mapping(self, pvn: u64) -> bool {
        exists|i: int|
            0 <= i < self.pvn_to_token_id@.len() && self.pvn_to_token_id@[i].0 == pvn
    }

    /// The position of the given number in the verification-number index.
    pub open spec fn pvn_mapping_index(self, pvn: u64) -> int {
        choose|i: int|
            0 <= i < self.pvn_to_token_id@.len() && self.pvn_to_token_id@[i].0 == pvn
    }

    /// No two entries of the verification-number index share a number.
    pub open spec fn pvn_mappings_unique(self) -> bool {
        forall|i: int, j: int|
            0 <= i < j < self.pvn_to_token_id@.len() ==> self.pvn_to_token_id@[i].0
                != self.pvn_to_token_id@[j].0
    }

    /// The value the allocator will issue next: the stored counter, or its
    /// lazy baseline of one while the counter has never been written.
    pub open spec fn token_counter(self) -> u64 {
        if self.next_token_id == 0 {
            1
        } else {
            self.next_token_id
        }
    }

    /// The records owned by the given address, in mint order.
    pub open spec fn owned_by(self, owner: Seq<char>) -> Seq<PropertyInfo> {
        owned_in(self.records(), owner)
    }

    /// No two records share a verification number.
    pub open spec fn pvns_unique(self) -> bool {
        forall|i: int, j: int|
            0 <= i < j < self.records().len() ==> self.records()[i].property_verification_no
                != self.records()[j].property_verification_no
    }

    /// No two records share an NFT address.
    pub open spec fn nft_addresses_unique(self) -> bool {
        forall|i: int, j: int|
            0 <= i < j < self.records().len() ==> self.records()[i].nft_address@
                != self.records()[j].nft_address@
    }

    /// Token ids are strictly increasing in mint order, hence never reused.
    pub open spec fn token_ids_increasing(self) -> bool {
        forall|i: int, j: int|
            0 <= i < j < self.records().len() ==> self.records()[i].token_id
                < self.records()[j].token_id
    }

    /// Every issued token id lies below the counter.
    pub open spec fn token_ids_below_counter(self) -> bool {
        forall|i: int|
            0 <= i < self.records().len() ==> self.records()[i].token_id < self.token_counter()
    }

    /// The master index holds exactly the verification numbers of the
    /// records, in the same order: no orphans, no omissions.
    pub open spec fn master_index_consistent(self) -> bool {
        &&& self.all_properties@.len() == self.records().len()
        &&& forall|i: int|
            0 <= i < self.records().len() ==> self.all_properties@[i]
                == self.records()[i].property_verification_no
    }

    /// The verification-number index mirrors the records.
    pub open spec fn pvn_index_consistent(self) -> bool {
        &&& self.pvn_to_token_id@.len() == self.records().len()
        &&& forall|i: int|
            0 <= i < self.records().len() ==> self.pvn_to_token_id@[i] == (
                self.records()[i].property_verification_no,
                self.records()[i].token_id,
            )
    }

    /// The NFT-address index mirrors the records.
    pub open spec fn nft_index_consistent(self) -> bool {
        &&& self.nft_address_to_token_id@.len() == self.records().len()
        &&& forall|i: int|
            0 <= i < self.records().len() ==> {
                &&& self.nft_address_to_token_id@[i].0@ == self.records()[i].nft_address@
                &&& self.nft_address_to_token_id@[i].1 == self.records()[i].token_id
            }
    }

    /// Well-formedness: the invariants every operation preserves.
    pub open spec fn wf(self) -> bool {
        &&& self.pvns_unique()
        &&& self.nft_addresses_unique()
        &&& self.token_ids_increasing()
        &&& self.token_ids_below_counter()
        &&& self.master_index_consistent()
        &&& self.pvn_index_consistent()
        &&& self.nft_index_consistent()
    }

    /// With verification numbers unique, a matching position is the record's
    /// position.
    pub proof fn lemma_pvn_index_is(self, pvn: u64, i: int)
        requires
            self.pvns_unique(),
            0 <= i < self.records().len(),
            self.records()[i].property_verification_no == pvn,
        ensures
            self.has_pvn(pvn),
            self.pvn_index(pvn) == i,
            self.record_of(pvn) == self.records()[i],
    {
        assert(self.has_pvn(pvn));
        let k = self.pvn_index(pvn);
        if k < i {
            assert(self.records()[k].property_verification_no
                != self.records()[i].property_verification_no);
        } else if i < k {
            assert(self.records()[i].property_verification_no
                != self.records()[k].property_verification_no);
        }
    }

    /// With token ids strictly increasing, a matching position is the
    /// record's position.
    pub proof fn lemma_token_index_is(self, token_id: u64, i: int)
        requires
            self.token_ids_increasing(),
            0 <= i < self.records().len(),
            self.records()[i].token_id == token_id,
        ensures
            self.has_token_id(token_id),
            self.token_index(token_id) == i,
    {
        assert(self.has_token_id(token_id));
        let k = self.token_index(token_id);
        if k < i {
            assert(self.records()[k].token_id < self.records()[i].token_id);
        } else if i < k {
            assert(self.records()[i].token_id < self.records()[k].token_id);
        }
    }

    /// With the NFT-address index free of duplicates, a matching position is
    /// the mapping's position.
    pub proof fn lemma_nft_mapping_index_is(self, nft_address: Seq<char>, i: int)
        requires
            self.nft_mappings_unique(),
            0 <= i < self.nft_address_to_token_id@.len(),
            self.nft_address_to_token_id@[i].0@ == nft_address,
        ensures
            self.has_nft_mapping(nft_address),
            self.nft_mapping_index(nft_address) == i,
            self.nft_token_of(nft_address) == self.nft_address_to_token_id@[i].1,
    {
        assert(self.has_nft_mapping(nft_address));
        let k = self.nft_mapping_index(nft_address);
        if k < i {
            assert(self.nft_address_to_token_id@[k].0@ != self.nft_address_to_token_id@[i].0@);
        } else if i < k {
            assert(self.nft_address_to_token_id@[i].0@ != self.nft_address_to_token_id@[k].0@);
        }
    }

    /// With the verification-number index free of duplicates, a matching
    /// position is the mapping's position.
    pub proof fn lemma_pvn_mapping_index_is(self, pvn: u64, i: int)
        requires
            self.pvn_mappings_unique(),
            0 <= i < self.pvn_to_token_id@.len(),
            self.pvn_to_token_id@[i].0 == pvn,
        ensures
            self.has_pvn_mapping(pvn),
            self.pvn_mapping_index(pvn) == i,
    {
        assert(self.has_pvn_mapping(pvn));
        let k = self.pvn_mapping_index(pvn);
        if k < i {
            assert(self.pvn_to_token_id@[k].0 != self.pvn_to_token_id@[i].0);
        } else if i < k {
            assert(self.pvn_to_token_id@[i].0 != self.pvn_to_token_id@[k].0);
        }
    }

    /// With NFT addresses unique among the records, a matching position is
    /// the record's position.
    pub proof fn lemma_nft_record_index_is(self, nft_address: Seq<char>, i: int)
        requires
            self.nft_addresses_unique(),
            0 <= i < self.records().len(),
            self.records()[i].nft_address@ == nft_address,
        ensures
            self.has_nft_address(nft_address),
            self.nft_index(nft_address) == i,
    {
        assert(self.has_nft_address(nft_address));
        let k = self.nft_index(nft_address);
        if k < i {
            assert(self.records()[k].nft_address@ != self.records()[i].nft_address@);
        } else if i < k {
            assert(self.records()[i].nft_address@ != self.records()[k].nft_address@);
        }
    }

    /// The NFT-address index maps an address if and only if some record
    /// carries it.
    pub proof fn lemma_nft_mapping_agrees(self, nft_address: Seq<char>)
        requires
            self.nft_index_consistent(),
        ensures
            self.has_nft_mapping(nft_address) == self.has_nft_address(nft_address),
    {
        if self.has_nft_mapping(nft_address) {
            let i = choose|i: int|
                0 <= i < self.nft_address_to_token_id@.len()
                    && self.nft_address_to_token_id@[i].0@ == nft_address;
            assert(self.records()[i].nft_address@ == nft_address);
            assert(self.has_nft_address(nft_address));
        }
        if self.has_nft_address(nft_address) {
            let i = choose|i: int|
                0 <= i < self.records().len() && self.records()[i].nft_address@ == nft_address;
            assert(self.nft_address_to_token_id@[i].0@ == nft_address);
            assert(self.has_nft_mapping(nft_address));
        }
    }

    /// The verification-number index maps a number if and only if some
    /// record carries it.
    pub proof fn lemma_pvn_mapping_agrees(self, pvn: u64)
        requires
            self.pvn_index_consistent(),
        ensures
            self.has_pvn_mapping(pvn) == self.has_pvn(pvn),
    {
        if self.has_pvn_mapping(pvn) {
            let i = choose|i: int|
                0 <= i < self.pvn_to_token_id@.len() && self.pvn_to_token_id@[i].0 == pvn;
            assert(self.pvn_to_token_id@[i] == (
                self.records()[i].property_verification_no,
                self.records()[i].token_id,
            ));
            assert(self.records()[i].property_verification_no == pvn);
            assert(self.has_pvn(pvn));
        }
        if self.has_pvn(pvn) {
            let i = choose|i: int|
                0 <= i < self.records().len() && self.records()[i].property_verification_no
                    == pvn;
            assert(self.pvn_to_token_id@[i] == (
                self.records()[i].property_verification_no,
                self.records()[i].token_id,
            ));
            assert(self.has_pvn_mapping(pvn));
        }
    }

    /// Well-formedness carries over to the index vectors: neither holds a
    /// duplicate key.
    pub proof fn lemma_indexes_unique(self)
        requires
            self.wf(),
        ensures
            self.nft_mappings_unique(),
            self.pvn_mappings_unique(),
    {
        assert forall|i: int, j: int|
            0 <= i < j < self.nft_address_to_token_id@.len() implies self
            .nft_address_to_token_id@[i].0@ != self.nft_address_to_token_id@[j].0@ by {
            assert(self.nft_address_to_token_id@[i].0@ == self.records()[i].nft_address@);
            assert(self.nft_address_to_token_id@[j].0@ == self.records()[j].nft_address@);
        }
        assert forall|i: int, j: int|
            0 <= i < j < self.pvn_to_token_id@.len() implies self.pvn_to_token_id@[i].0
            != self.pvn_to_token_id@[j].0 by {
            assert(self.pvn_to_token_id@[i] == (
                self.records()[i].property_verification_no,
                self.records()[i].token_id,
            ));
            assert(self.pvn_to_token_id@[j] == (
                self.records()[j].property_verification_no,
                self.records()[j].token_id,
            ));
        }
    }

    /// A fresh registry: nothing initialized, nothing minted.
    pub fn new() -> (registry: SytemapRegistry)
        ensures
            registry.wf(),
            registry.token_metadata is None,
            registry.records() == Seq::<PropertyInfo>::empty(),
            registry.token_counter() == 1,
            registry.all_properties@ == Seq::<u64>::empty(),
            registry.events.property_created_events@.len() == 0,
            registry.events.price_changed_events@.len() == 0,
            registry.events.base_uri_updated_events@.len() == 0,
    {
        SytemapRegistry {
            token_metadata: None,
            next_token_id: 0,
            properties: Vec::new(),
            nft_address_to_token_id: Vec::new(),
            pvn_to_token_id: Vec::new(),
            all_properties: Vec::new(),
            events: SytemapRegistryEvents::new(),
        }
    }

    /// Initializes the registry with its token metadata. Fails with
    /// `AlreadyInitialized` if metadata already exists; otherwise persists
    /// it and establishes the token-id allocator's baseline.
    pub fn initialize(
        &mut self,
        sytemap_name: String,
        sytemap_symbol: String,
        metadata_uri: String,
    ) -> (r: Result<(), SytemapRegistryError>)
        requires
            old(self).wf(),
        ensures
            final(self).wf(),
            r is Ok <==> old(self).token_metadata is None,
            r is Err ==> r == Err::<(), SytemapRegistryError>(
                SytemapRegistryError::AlreadyInitialized,
            ) && *final(self) == *old(self),
            r is Ok ==> final(self).token_metadata == Some(
                (TokenMetadata { sytemap_name, sytemap_symbol, metadata_uri }),
            ),
            r is Ok ==> {
                &&& final(self).properties == old(self).properties
                &&& final(self).nft_address_to_token_id == old(self).nft_address_to_token_id
                &&& final(self).pvn_to_token_id == old(self).pvn_to_token_id
                &&& final(self).all_properties == old(self).all_properties
                &&& final(self).events == old(self).events
                &&& final(self).token_counter() == old(self).token_counter()
            },
    {
        if token_metadata_exists(self) {
            return Err(SytemapRegistryError::AlreadyInitialized);
        }
        initialize_token_id_tracker(self);
        save_token_metadata(self, TokenMetadata { sytemap_name, sytemap_symbol, metadata_uri });
        Ok(())
    }

    /// Mints a new property record from the payload, at host time
    /// `timestamp`. Fails with `AlreadyMinted` if the verification number is
    /// on record, then with `NftAddressAlreadyInUse` if the NFT address is
    /// already mapped; a failed mint leaves the registry untouched. A
    /// successful mint allocates the next token id, persists the record and
    /// both index entries, appends the verification number to the master
    /// index, and publishes the creation notification.
    pub fn safe_mint_new_property_info(
        &mut self,
        payload: PropertyInfoPayload,
        timestamp: u64,
    ) -> (r: Result<(), SytemapRegistryError>)
        requires
            old(self).wf(),
            old(self).token_counter() < u64::MAX,
        ensures
            final(self).wf(),
            r is Ok <==> !old(self).has_pvn(payload.property_verification_no) && !old(
                self,
            ).has_nft_address(payload.nft_address@),
            r == Err::<(), SytemapRegistryError>(SytemapRegistryError::AlreadyMinted) <==> old(
                self,
            ).has_pvn(payload.property_verification_no),
            r == Err::<(), SytemapRegistryError>(SytemapRegistryError::NftAddressAlreadyInUse)
                <==> !old(self).has_pvn(payload.property_verification_no) && old(
                self,
            ).has_nft_address(payload.nft_address@),
            r is Err ==> *final(self) == *old(self),
            r is Ok ==> mint_success_post(*old(self), *final(self), payload, timestamp),
    {
        let pvn = payload.property_verification_no;
        let nft_address = payload.nft_address.clone();

        if check_pvn_exists(self, pvn) {
            return Err(SytemapRegistryError::AlreadyMinted);
        }
        proof {
            self.lemma_nft_mapping_agrees(nft_address@);
        }
        if check_nft_address_exists(self, nft_address.clone()) {
            return Err(SytemapRegistryError::NftAddressAlreadyInUse);
        }

        // Allocate a new token id.
        let token_id = match get_next_token_id(self) {
            Ok(token_id) => token_id,
            Err(e) => { return Err(e) },
        };

        // Build the record from the payload, the issued token id and the
        // captured timestamp.
        let property_info = PropertyInfo {
            price_of_plot: payload.price_of_plot,
            property_verification_no: pvn,
            timestamp,
            token_id,
            buyer_wallet_id: payload.buyer_wallet_id,
            plot_no: payload.plot_no,
            size_of_plot: payload.size_of_plot,
            coordinate_of_plot: payload.coordinate_of_plot,
            token_url: payload.token_url,
            estate_name: payload.estate_name,
            plot_url: payload.plot_url,
            date_of_allocation: payload.date_of_allocation,
            estate_company_name: payload.estate_company_name,
            nft_address: payload.nft_address,
        };
        proof {
            assert(property_info == record_of_payload(
                payload,
                old(self).token_counter(),
                timestamp,
            ));
            old(self).lemma_indexes_unique();
            old(self).lemma_pvn_mapping_agrees(pvn);
        }

        // Persist the record and both index mappings.
        match mint_property_info(self, pvn, &property_info) {
            Ok(_) => (),
            Err(e) => { return Err(e) },
        };
        match save_nft_address_to_token_id(self, nft_address, token_id) {
            Ok(_) => (),
            Err(e) => { return Err(e) },
        };
        match save_pvn_to_token_id(self, pvn, token_id) {
            Ok(_) => (),
            Err(e) => { return Err(e) },
        };

        // Track the new verification number in the master index.
        let mut all_properties = get_all_property_verification_numbers(self);
        all_properties.push(pvn);
        match update_all_properties(self, all_properties) {
            Ok(_) => (),
            Err(e) => { return Err(e) },
        };

        // Publish the creation notification.
        self.events.property_info_created(
            property_info.plot_no.clone(),
            property_info.property_verification_no,
            token_id,
            timestamp,
            property_info.price_of_plot,
            property_info.buyer_wallet_id.clone(),
            property_info.token_url.clone(),
            property_info.estate_name.clone(),
            property_info.size_of_plot.clone(),
            property_info.plot_url.clone(),
            property_info.date_of_allocation.clone(),
            property_info.coordinate_of_plot.clone(),
            property_info.estate_company_name.clone(),
        );

        proof {
            let pre = *old(self);
            let post = *self;
            let record = record_of_payload(payload, pre.token_counter(), timestamp);
            let n = pre.records().len();
            assert(post.records() == pre.records().push(record));
            assert forall|i: int, j: int|
                0 <= i < j < post.records().len() implies post.records()[i]
                .property_verification_no != post.records()[j].property_verification_no by {
                if j < n {
                    assert(pre.records()[i].property_verification_no != pre.records()[j]
                        .property_verification_no);
                } else {
                    assert(post.records()[j] == record);
                    assert(!(0 <= i < pre.records().len() && pre.records()[i]
                        .property_verification_no == pvn));
                }
            }
            assert forall|i: int, j: int|
                0 <= i < j < post.records().len() implies post.records()[i].nft_address@
                != post.records()[j].nft_address@ by {
                if j < n {
                    assert(pre.records()[i].nft_address@ != pre.records()[j].nft_address@);
                } else {
                    assert(post.records()[j] == record);
                    assert(!(0 <= i < pre.records().len() && pre.records()[i].nft_address@
                        == payload.nft_address@));
                }
            }
            assert forall|i: int, j: int|
                0 <= i < j < post.records().len() implies post.records()[i].token_id
                < post.records()[j].token_id by {
                if j < n {
                    assert(pre.records()[i].token_id < pre.records()[j].token_id);
                } else {
                    assert(post.records()[j] == record);
                    assert(pre.records()[i].token_id < pre.token_counter());
                }
            }
            assert(post.wf());
        }
        Ok(())
    }

    /// Changes the price of the record with the given verification number.
    /// Fails with `InvalidPrice` for a price of zero, and with
    /// `PropertyNotFound` if no record exists; a failed update leaves the
    /// registry untouched. A successful update rewrites exactly the price
    /// field and publishes the price-change notification.
    pub fn change_property_price_by_owner(
        &mut self,
        property_verification_no: u64,
        new_price: u64,
    ) -> (r: Result<(), SytemapRegistryError>)
        requires
            old(self).wf(),
        ensures
            final(self).wf(),
            r == Err::<(), SytemapRegistryError>(SytemapRegistryError::InvalidPrice) <==> new_price
                == 0,
            r == Err::<(), SytemapRegistryError>(SytemapRegistryError::PropertyNotFound) <==> (
            new_price != 0 && !old(self).has_pvn(property_verification_no)),
            r is Ok <==> (new_price != 0 && old(self).has_pvn(property_verification_no)),
            r is Err ==> *final(self) == *old(self),
            r is Ok ==> price_update_success_post(
                *old(self),
                *final(self),
                property_verification_no,
                new_price,
            ),
    {
        if new_price == 0 {
            return Err(SytemapRegistryError::InvalidPrice);
        }

        let mut property_info = match get_property_info_by_pvn(self, property_verification_no) {
            Ok(property_info) => property_info,
            Err(e) => { return Err(e) },
        };

        property_info.price_of_plot = new_price;
        proof {
            assert(property_info == (PropertyInfo {
                price_of_plot: new_price,
                ..old(self).record_of(property_verification_no)
            }));
        }
        match save_property_info(self, property_verification_no, &property_info) {
            Ok(_) => (),
            Err(e) => { return Err(e) },
        };

        // Publish the price-change notification.
        self.events.property_price_changed(
            property_info.buyer_wallet_id,
            property_verification_no,
            new_price,
        );

        proof {
            let pre = *old(self);
            let post = *self;
            let k = pre.pvn_index(property_verification_no);
            assert(post.records() == pre.records().update(k, property_info));
            assert(post.records().len() == pre.records().len());
            assert forall|i: int| 0 <= i < post.records().len() implies {
                &&& post.records()[i].property_verification_no == pre.records()[i]
                    .property_verification_no
                &&& post.records()[i].nft_address@ == pre.records()[i].nft_address@
                &&& post.records()[i].token_id == pre.records()[i].token_id
            } by {
                if i != k {
                    assert(post.records()[i] == pre.records()[i]);
                }
            }
            assert(post.wf());
        }
        Ok(())
    }

    /// Retrieves the record with the given verification number.
    pub fn get_property_info_details_by_pvn(&self, property_verification_no: u64) -> (r: Result<
        PropertyInfo,
        SytemapRegistryError,
    >)
        requires
            self.wf(),
        ensures
            self.has_pvn(property_verification_no) ==> r == Ok::<
                PropertyInfo,
                SytemapRegistryError,
            >(self.record_of(property_verification_no)),
            !self.has_pvn(property_verification_no) ==> r == Err::<
                PropertyInfo,
                SytemapRegistryError,
            >(SytemapRegistryError::PropertyNotFound),
    {
        get_property_info_by_pvn(self, property_verification_no)
    }

    /// Retrieves the record linked to the given NFT address, resolved
    /// through the NFT-address-to-token-id index.
    pub fn get_property_info_by_nft_address(&self, nft_address: String) -> (r: Result<
        PropertyInfo,
        SytemapRegistryError,
    >)
        requires
            self.wf(),
        ensures
            self.has_nft_address(nft_address@) ==> r == Ok::<PropertyInfo, SytemapRegistryError>(
                self.records()[self.nft_index(nft_address@)],
            ),
            !self.has_nft_address(nft_address@) ==> r == Err::<PropertyInfo, SytemapRegistryError>(
                SytemapRegistryError::PropertyNotFound,
            ),
    {
        proof {
            self.lemma_indexes_unique();
            self.lemma_nft_mapping_agrees(nft_address@);
        }
        let ghost addr = nft_address@;
        let token_id = match get_nft_address_to_token_id(self, nft_address) {
            Ok(token_id) => token_id,
            Err(e) => { return Err(e) },
        };
        proof {
            let k = self.nft_mapping_index(addr);
            assert(self.nft_address_to_token_id@[k].0@ == addr);
            assert(self.records()[k].nft_address@ == addr);
            assert(self.records()[k].token_id == token_id);
            self.lemma_token_index_is(token_id, k);
            self.lemma_nft_record_index_is(addr, k);
        }
        get_property_info(self, token_id)
    }

    /// Counts the records owned by the given address.
    pub fn get_no_of_property_by_address(&self, owner_address: String) -> (r: Result<
        u64,
        SytemapRegistryError,
    >)
        requires
            self.wf(),
        ensures
            r == Ok::<u64, SytemapRegistryError>(self.owned_by(owner_address@).len() as u64),
    {
        let all_properties = get_all_property_verification_numbers(self);
        let n = all_properties.len();
        let mut count: u64 = 0;
        let mut i: usize = 0;
        while i < n
            invariant
                self.wf(),
                all_properties@ == self.all_properties@,
                n == all_properties@.len(),
                n == self.records().len(),
                0 <= i <= n,
                count <= i,
                count == owned_in(self.records().take(i as int), owner_address@).len(),
            decreases n - i,
        {
            proof {
                assert(self.records()[i as int].property_verification_no
                    == all_properties@[i as int]);
                self.lemma_pvn_index_is(all_properties@[i as int], i as int);
                self.records().lemma_take_succ_push(i as int);
                lemma_owned_in_push(
                    self.records().take(i as int),
                    owner_address@,
                    self.records()[i as int],
                );
            }
            match get_property_info_by_pvn(self, all_properties[i]) {
                Ok(property_info) => {
                    if property_info.buyer_wallet_id == owner_address {
                        count += 1;
                    }
                },
                Err(_) => {},
            }
            i += 1;
        }
        proof {
            assert(self.records().take(n as int) =~= self.records());
        }
        Ok(count)
    }

    /// Counts all minted records.
    pub fn get_number_of_property_minted(&self) -> (r: Result<u64, SytemapRegistryError>)
        requires
            self.wf(),
        ensures
            r == Ok::<u64, SytemapRegistryError>(self.records().len() as u64),
    {
        let all_properties = get_all_property_verification_numbers(self);
        Ok(all_properties.len() as u64)
    }

    /// Retrieves the owner address of the record with the given
    /// verification number.
    pub fn get_owner_of_pvn(&self, property_verification_no: u64) -> (r: Result<
        String,
        SytemapRegistryError,
    >)
        requires
            self.wf(),
        ensures
            self.has_pvn(property_verification_no) ==> r == Ok::<String, SytemapRegistryError>(
                self.record_of(property_verification_no).buyer_wallet_id,
            ),
            !self.has_pvn(property_verification_no) ==> r == Err::<String, SytemapRegistryError>(
                SytemapRegistryError::PropertyNotFound,
            ),
    {
        match get_property_info_by_pvn(self, property_verification_no) {
            Ok(property_info) => Ok(property_info.buyer_wallet_id),
            Err(e) => Err(e),
        }
    }

    /// Lists the records owned by the given address, in mint order.
    pub fn get_all_property_by_owner(&self, owner_address: String) -> (r: Result<
        Vec<PropertyInfo>,
        SytemapRegistryError,
    >)
        requires
            self.wf(),
        ensures
            r is Ok,
            r->Ok_0@ == self.owned_by(owner_address@),
    {
        let all_properties = get_all_property_verification_numbers(self);
        let n = all_properties.len();
        let mut properties: Vec<PropertyInfo> = Vec::new();
        let mut i: usize = 0;
        while i < n
            invariant
                self.wf(),
                all_properties@ == self.all_properties@,
                n == all_properties@.len(),
                n == self.records().len(),
                0 <= i <= n,
                properties@ == owned_in(self.records().take(i as int), owner_address@),
            decreases n - i,
        {
            proof {
                assert(self.records()[i as int].property_verification_no
                    == all_properties@[i as int]);
                self.lemma_pvn_index_is(all_properties@[i as int], i as int);
                self.records().lemma_take_succ_push(i as int);
                lemma_owned_in_push(
                    self.records().take(i as int),
                    owner_address@,
                    self.records()[i as int],
                );
            }
            match get_property_info_by_pvn(self, all_properties[i]) {
                Ok(property_info) => {
                    if property_info.buyer_wallet_id == owner_address {
                        properties.push(property_info);
                    }
                },
                Err(_) => {},
            }
            i += 1;
        }
        proof {
            assert(self.records().take(n as int) =~= self.records());
        }
        Ok(properties)
    }

    /// Lists all minted records, in mint order.
    pub fn get_all_minted_property_details(&self) -> (r: Result<
        Vec<PropertyInfo>,
        SytemapRegistryError,
    >)
        requires
            self.wf(),
        ensures
            r is Ok,
            r->Ok_0@ == self.records(),
    {
        let all_properties = get_all_property_verification_numbers(self);
        let n = all_properties.len();
        let mut properties: Vec<PropertyInfo> = Vec::new();
        let mut i: usize = 0;
        while i < n
            invariant
                self.wf(),
                all_properties@ == self.all_properties@,
                n == all_properties@.len(),
                n == self.records().len(),
                0 <= i <= n,
                properties@ == self.records().take(i as int),
            decreases n - i,
        {
            proof {
                assert(self.records()[i as int].property_verification_no
                    == all_properties@[i as int]);
                self.lemma_pvn_index_is(all_properties@[i as int], i as int);
                self.records().lemma_take_succ_push(i as int);
            }
            match get_property_info_by_pvn(self, all_properties[i]) {
                Ok(property_info) => { properties.push(property_info) },
                Err(_) => {},
            }
            i += 1;
        }
        proof {
            assert(self.records().take(n as int) =~= self.records());
        }
        Ok(properties)
    }
}

/// What a successful price update did: the record for `pvn` existed, the
/// new price is positive, and `post` differs from `pre` in exactly that
/// record's price field, with the price-change notification published.
pub open spec fn price_update_success_post(
    pre: SytemapRegistry,
    post: SytemapRegistry,
    pvn: u64,
    new_price: u64,
) -> bool {
    &&& new_price > 0
    &&& pre.has_pvn(pvn)
    &&& post.records() == pre.records().update(
        pre.pvn_index(pvn),
        (PropertyInfo { price_of_plot: new_price, ..pre.record_of(pvn) }),
    )
    &&& post.next_token_id == pre.next_token_id
    &&& post.token_metadata == pre.token_metadata
    &&& post.all_properties == pre.all_properties
    &&& post.pvn_to_token_id == pre.pvn_to_token_id
    &&& post.nft_address_to_token_id == pre.nft_address_to_token_id
    &&& post.events.price_changed_events@ == pre.events.price_changed_events@.push(
        (PropertyPriceChanged {
            owner: pre.record_of(pvn).buyer_wallet_id,
            property_verification_no: pvn,
            new_price,
        }),
    )
    &&& post.events.property_created_events == pre.events.property_created_events
    &&& post.events.base_uri_updated_events == pre.events.base_uri_updated_events
}

/// What a successful mint of `payload` at host time `timestamp` did: both
/// uniqueness preconditions held in `pre`, and `post` extends `pre` by one
/// record carrying the issued token id, with every index extended to match
/// and the creation notification published.
pub open spec fn mint_success_post(
    pre: SytemapRegistry,
    post: SytemapRegistry,
    payload: PropertyInfoPayload,
    timestamp: u64,
) -> bool {
    &&& !pre.has_pvn(payload.property_verification_no)
    &&& !pre.has_nft_address(payload.nft_address@)
    &&& post.records() == pre.records().push(
        record_of_payload(payload, pre.token_counter(), timestamp),
    )
    &&& post.next_token_id == pre.token_counter() + 1
    &&& post.token_metadata == pre.token_metadata
    &&& post.all_properties@ == pre.all_properties@.push(payload.property_verification_no)
    &&& post.pvn_to_token_id@ == pre.pvn_to_token_id@.push(
        (payload.property_verification_no, pre.token_counter()),
    )
    &&& post.nft_address_to_token_id@ == pre.nft_address_to_token_id@.push(
        (payload.nft_address, pre.token_counter()),
    )
    &&& post.events.property_created_events@ == pre.events.property_created_events@.push(
        created_event_of_payload(payload, pre.token_counter(), timestamp),
    )
    &&& post.events.price_changed_events == pre.events.price_changed_events
    &&& post.events.base_uri_updated_events == pre.events.base_uri_updated_events
}

/// Law: a second mint with an already-minted verification number is
/// rejected and the first record stays unchanged. After a successful mint
/// the verification number is on record and names exactly the minted
/// record, so by `safe_mint_new_property_info`'s contract any further mint
/// of that number returns `AlreadyMinted` and leaves the registry — in
/// particular the first record — untouched.
pub proof fn lemma_remint_same_pvn_rejected(
    pre: SytemapRegistry,
    post: SytemapRegistry,
    payload: PropertyInfoPayload,
    timestamp: u64,
    second: PropertyInfoPayload,
)
    requires
        pre.wf(),
        post.wf(),
        mint_success_post(pre, post, payload, timestamp),
        second.property_verification_no == payload.property_verification_no,
    ensures
        post.has_pvn(second.property_verification_no),
        post.record_of(second.property_verification_no) == record_of_payload(
            payload,
            pre.token_counter(),
            timestamp,
        ),
{
    let n = pre.records().len() as int;
    assert(post.records()[n] == record_of_payload(payload, pre.token_counter(), timestamp));
    post.lemma_pvn_index_is(second.property_verification_no, n);
}

/// Law: two mints with the same NFT address and different verification
/// numbers cannot both succeed. After the first succeeds, the address is
/// carried by a record while the second verification number is still free,
/// so by `safe_mint_new_property_info`'s contract the second mint returns
/// `NftAddressAlreadyInUse` and changes nothing.
pub proof fn lemma_mint_same_nft_rejected(
    pre: SytemapRegistry,
    post: SytemapRegistry,
    payload: PropertyInfoPayload,
    timestamp: u64,
    second: PropertyInfoPayload,
)
    requires
        pre.wf(),
        mint_success_post(pre, post, payload, timestamp),
        second.nft_address@ == payload.nft_address@,
        second.property_verification_no != payload.property_verification_no,
        !pre.has_pvn(second.property_verification_no),
    ensures
        !post.has_pvn(second.property_verification_no),
        post.has_nft_address(second.nft_address@),
{
    let n = pre.records().len() as int;
    let record = record_of_payload(payload, pre.token_counter(), timestamp);
    assert(post.records()[n] == record);
    assert(post.records()[n].nft_address@ == second.nft_address@);
    assert(post.has_nft_address(second.nft_address@));
    assert forall|i: int|
        0 <= i < post.records().len() implies post.records()[i].property_verification_no
        != second.property_verification_no by {
        if i < n {
            assert(post.records()[i] == pre.records()[i]);
            assert(!(0 <= i < pre.records().len() && pre.records()[i].property_verification_no
                == second.property_verification_no));
        } else {
            assert(post.records()[i] == record);
        }
    }
}

/// Law: token ids issued by successive successful mints are strictly
/// increasing — the second mint's record carries a strictly larger token id
/// than the first's.
pub proof fn lemma_token_ids_strictly_increase(
    pre: SytemapRegistry,
    mid: SytemapRegistry,
    post: SytemapRegistry,
    first: PropertyInfoPayload,
    timestamp1: u64,
    second: PropertyInfoPayload,
    timestamp2: u64,
)
    requires
        pre.wf(),
        mint_success_post(pre, mid, first, timestamp1),
        mint_success_post(mid, post, second, timestamp2),
    ensures
        post.records().len() >= 2,
        post.records()[post.records().len() - 2].token_id < post.records()[post.records().len()
            - 1].token_id,
{
    assert(mid.token_counter() == pre.token_counter() + 1);
}

/// Law: a well-formed registry never reuses a token id — distinct records
/// carry distinct token ids, and they appear in mint order with strictly
/// increasing ids.
pub proof fn lemma_token_ids_never_reused(registry: SytemapRegistry)
    requires
        registry.wf(),
    ensures
        forall|i: int, j: int|
            0 <= i < registry.records().len() && 0 <= j < registry.records().len() && i != j
                ==> registry.records()[i].token_id != registry.records()[j].token_id,
{
    assert forall|i: int, j: int|
        0 <= i < registry.records().len() && 0 <= j < registry.records().len() && i
        != j implies registry.records()[i].token_id != registry.records()[j].token_id by {
        if i < j {
            assert(registry.records()[i].token_id < registry.records()[j].token_id);
        } else {
            assert(registry.records()[j].token_id < registry.records()[i].token_id);
        }
    }
}

/// Law: the total-minted count, the length of the full listing, and the
/// number of entries in the master index agree: `get_number_of_property_minted`
/// returns the record count, `get_all_minted_property_details` returns one
/// entry per record, and the master index has exactly one entry per record.
pub proof fn lemma_census_sizes_agree(registry: SytemapRegistry)
    requires
        registry.wf(),
    ensures
        registry.all_properties@.len() == registry.records().len(),
{
}

/// Law: the by-owner listing is the owned subsequence of the full listing.
/// `get_all_property_by_owner` returns `owned_by`, the order-preserving
/// selection from the records that `get_all_minted_property_details`
/// returns; every selected record carries the queried owner and occurs
/// among the records.
pub proof fn lemma_owned_by_selects_owner(registry: SytemapRegistry, owner: Seq<char>)
    ensures
        registry.owned_by(owner) == owned_in(registry.records(), owner),
        registry.owned_by(owner).len() <= registry.records().len(),
        forall|i: int|
            0 <= i < registry.owned_by(owner).len() ==> registry.owned_by(owner)[i]
                .buyer_wallet_id@ == owner && registry.records().contains(
                registry.owned_by(owner)[i],
            ),
{
    lemma_owned_in_members(registry.records(), owner);
}

/// Every record `owned_in` selects satisfies the owner test and occurs in
/// the underlying sequence, and no records are invented.
pub proof fn lemma_owned_in_members(s: Seq<PropertyInfo>, owner: Seq<char>)
    ensures
        owned_in(s, owner).len() <= s.len(),
        forall|i: int|
            0 <= i < owned_in(s, owner).len() ==> owned_in(s, owner)[i].buyer_wallet_id@ == owner
                && s.contains(owned_in(s, owner)[i]),
    decreases s.len(),
{
    if s.len() == 0 {
    } else {
        let rest = s.drop_last();
        lemma_owned_in_members(rest, owner);
        assert forall|i: int|
            0 <= i < owned_in(s, owner).len() implies owned_in(s, owner)[i].buyer_wallet_id@
            == owner && s.contains(owned_in(s, owner)[i]) by {
            if i < owned_in(rest, owner).len() {
                assert(owned_in(s, owner)[i] == owned_in(rest, owner)[i]);
                let k = choose|k: int| 0 <= k < rest.len() && rest[k] == owned_in(rest, owner)[i];
                assert(s[k] == owned_in(s, owner)[i]);
            } else {
                assert(owned_in(s, owner)[i] == s.last());
                assert(s[s.len() - 1] == s.last());
            }
        }
    }
}

} // verus!
