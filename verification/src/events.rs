use vstd::prelude::*;

verus! {

use crate::types::{PropertyInfo, PropertyInfoPayload, record_of_payload};

/// Payload of the notification published when a property record is minted.
/// Field order matches the shape consumers of the sink depend on.
pub struct PropertyInfoCreated {
    pub plot_no: String,
    pub property_verification_no: u64,
    pub token_id: u64,
    pub timestamp: u64,
    pub price_of_plot: u64,
    pub buyer_wallet_id: String,
    pub token_url: String,
    pub estate_name: String,
    pub size_of_plot: String,
    pub plot_url: String,
    pub date_of_allocation: String,
    pub coordinate_of_plot: String,
    pub estate_company_name: String,
}

/// Payload of the notification published when a property's price changes.
pub struct PropertyPriceChanged {
    pub owner: String,
    pub property_verification_no: u64,
    pub new_price: u64,
}

/// Payload of the notification published when the base URI is replaced.
pub struct BaseUriUpdated {
    pub old_base_uri: String,
    pub new_base_uri: String,
}

/// The append-only notification sink: every notification the registry has
/// published, per shape, in publication order.
pub struct SytemapRegistryEvents {
    pub property_created_events: Vec<PropertyInfoCreated>,
    pub price_changed_events: Vec<PropertyPriceChanged>,
    pub base_uri_updated_events: Vec<BaseUriUpdated>,
}

/// The creation notification that a successful mint of `record` publishes.
pub open spec fn created_event_of(record: PropertyInfo) -> PropertyInfoCreated {
    PropertyInfoCreated {
        plot_no: record.plot_no,
        property_verification_no: record.property_verification_no,
        token_id: record.token_id,
        timestamp: record.timestamp,
        price_of_plot: record.price_of_plot,
        buyer_wallet_id: record.buyer_wallet_id,
        token_url: record.token_url,
        estate_name: record.estate_name,
        size_of_plot: record.size_of_plot,
        plot_url: record.plot_url,
        date_of_allocation: record.date_of_allocation,
        coordinate_of_plot: record.coordinate_of_plot,
        estate_company_name: record.estate_company_name,
    }
}

/// The creation notification a successful mint of `payload` publishes, given
/// the issued token id and the captured timestamp.
pub open spec fn created_event_of_payload(
    payload: PropertyInfoPayload,
    token_id: u64,
    timestamp: u64,
) -> PropertyInfoCreated {
    created_event_of(record_of_payload(payload, token_id, timestamp))
}

impl SytemapRegistryEvents {
    /// A sink that has published nothing yet.
    pub fn new() -> (sink: SytemapRegistryEvents)
        ensures
            sink.property_created_events@ == Seq::<PropertyInfoCreated>::empty(),
            sink.price_changed_events@ == Seq::<PropertyPriceChanged>::empty(),
            sink.base_uri_updated_events@ == Seq::<BaseUriUpdated>::empty(),
    {
        SytemapRegistryEvents {
            property_created_events: Vec::new(),
            price_changed_events: Vec::new(),
            base_uri_updated_events: Vec::new(),
        }
    }

    /// Publishes the notification that a property record was minted.
    pub fn property_info_created(
        &mut self,
        plot_no: String,
        property_verification_no: u64,
        token_id: u64,
        timestamp: u64,
        price_of_plot: u64,
        buyer_wallet_id: String,
        token_url: String,
        estate_name: String,
        size_of_plot: String,
        plot_url: String,
        date_of_allocation: String,
        coordinate_of_plot: String,
        estate_company_name: String,
    )
        ensures
            final(self).property_created_events@ == old(self).property_created_events@.push(
                (PropertyInfoCreated {
                    plot_no,
                    property_verification_no,
                    token_id,
                    timestamp,
                    price_of_plot,
                    buyer_wallet_id,
                    token_url,
                    estate_name,
                    size_of_plot,
                    plot_url,
                    date_of_allocation,
                    coordinate_of_plot,
                    estate_company_name,
                }),
            ),
            final(self).price_changed_events == old(self).price_changed_events,
            final(self).base_uri_updated_events == old(self).base_uri_updated_events,
    {
        self.property_created_events.push(PropertyInfoCreated {
            plot_no,
            property_verification_no,
            token_id,
            timestamp,
            price_of_plot,
            buyer_wallet_id,
            token_url,
            estate_name,
            size_of_plot,
            plot_url,
            date_of_allocation,
            coordinate_of_plot,
            estate_company_name,
        });
    }

    /// Publishes the notification that a property's price was changed.
    pub fn property_price_changed(
        &mut self,
        owner: String,
        property_verification_no: u64,
        new_price: u64,
    )
        ensures
            final(self).price_changed_events@ == old(self).price_changed_events@.push(
                (PropertyPriceChanged { owner, property_verification_no, new_price }),
            ),
            final(self).property_created_events == old(self).property_created_events,
            final(self).base_uri_updated_events == old(self).base_uri_updated_events,
    {
        self.price_changed_events.push(PropertyPriceChanged {
            owner,
            property_verification_no,
            new_price,
        });
    }

    /// Publishes the notification that the base URI was replaced.
    pub fn emit_base_uri_updated_event(&mut self, old_base_uri: String, new_base_uri: String)
        ensures
            final(self).base_uri_updated_events@ == old(self).base_uri_updated_events@.push(
                (BaseUriUpdated { old_base_uri, new_base_uri }),
            ),
            final(self).property_created_events == old(self).property_created_events,
            final(self).price_changed_events == old(self).price_changed_events,
    {
        self.base_uri_updated_events.push(BaseUriUpdated { old_base_uri, new_base_uri });
    }
}

} // verus!
