use vstd::prelude::*;

verus! {

/// Registry-level metadata: written exactly once at initialization and
/// immutable afterwards.
#[derive(Debug)]
pub struct TokenMetadata {
    pub sytemap_name: String,
    pub sytemap_symbol: String,
    /// URI where the asset metadata is hosted.
    pub metadata_uri: String,
}

impl Clone for TokenMetadata {
    fn clone(&self) -> (res: Self)
        ensures
            res == *self,
    {
        TokenMetadata {
            sytemap_name: self.sytemap_name.clone(),
            sytemap_symbol: self.sytemap_symbol.clone(),
            metadata_uri: self.metadata_uri.clone(),
        }
    }
}

/// One property record, created once per successful mint. The price is the
/// only field that may change afterwards; records are never deleted.
#[derive(Debug)]
pub struct PropertyInfo {
    pub price_of_plot: u64,
    /// The caller-supplied primary business key.
    pub property_verification_no: u64,
    /// Host time captured when the record was minted.
    pub timestamp: u64,
    /// The registry-assigned identifier, strictly increasing across mints.
    pub token_id: u64,
    pub buyer_wallet_id: String,
    pub plot_no: String,
    pub size_of_plot: String,
    pub coordinate_of_plot: String,
    pub token_url: String,
    pub estate_name: String,
    pub plot_url: String,
    pub date_of_allocation: String,
    pub estate_company_name: String,
    pub nft_address: String,
}

impl Clone for PropertyInfo {
    fn clone(&self) -> (res: Self)
        ensures
            res == *self,
    {
        PropertyInfo {
            price_of_plot: self.price_of_plot,
            property_verification_no: self.property_verification_no,
            timestamp: self.timestamp,
            token_id: self.token_id,
            buyer_wallet_id: self.buyer_wallet_id.clone(),
            plot_no: self.plot_no.clone(),
            size_of_plot: self.size_of_plot.clone(),
            coordinate_of_plot: self.coordinate_of_plot.clone(),
            token_url: self.token_url.clone(),
            estate_name: self.estate_name.clone(),
            plot_url: self.plot_url.clone(),
            date_of_allocation: self.date_of_allocation.clone(),
            estate_company_name: self.estate_company_name.clone(),
            nft_address: self.nft_address.clone(),
        }
    }
}

/// The caller-supplied part of a property record: everything except the
/// token id and the timestamp, which the registry fills in at mint time.
#[derive(Debug)]
pub struct PropertyInfoPayload {
    pub price_of_plot: u64,
    pub property_verification_no: u64,
    pub buyer_wallet_id: String,
    pub plot_no: String,
    pub size_of_plot: String,
    pub coordinate_of_plot: String,
    pub token_url: String,
    pub estate_name: String,
    pub plot_url: String,
    pub date_of_allocation: String,
    pub estate_company_name: String,
    pub nft_address: String,
}

impl Clone for PropertyInfoPayload {
    fn clone(&self) -> (res: Self)
        ensures
            res == *self,
    {
        PropertyInfoPayload {
            price_of_plot: self.price_of_plot,
            property_verification_no: self.property_verification_no,
            buyer_wallet_id: self.buyer_wallet_id.clone(),
            plot_no: self.plot_no.clone(),
            size_of_plot: self.size_of_plot.clone(),
            coordinate_of_plot: self.coordinate_of_plot.clone(),
            token_url: self.token_url.clone(),
            estate_name: self.estate_name.clone(),
            plot_url: self.plot_url.clone(),
            date_of_allocation: self.date_of_allocation.clone(),
            estate_company_name: self.estate_company_name.clone(),
            nft_address: self.nft_address.clone(),
        }
    }
}

/// The record that a successful mint of `payload` persists, given the token
/// id the allocator issued and the host timestamp captured at mint time.
pub open spec fn record_of_payload(
    payload: PropertyInfoPayload,
    token_id: u64,
    timestamp: u64,
) -> PropertyInfo {
    PropertyInfo {
        price_of_plot: payload.price_of_plot,
        property_verification_no: payload.property_verification_no,
        timestamp: timestamp,
        token_id: token_id,
        buyer_wallet_id: payload.buyer_wallet_id,
        plot_no: payload.plot_no,
        size_of_plot: payload.size_of_plot,
        coordinate_of_plot: payload.coordinate_of_plot,
        token_url: payload.token_url,
        estate_name: payload.estate_name,
        plot_url: payload.plot_url,
        date_of_allocation: payload.date_of_allocation,
        estate_company_name: payload.estate_company_name,
        nft_address: payload.nft_address,
    }
}

} // verus!
