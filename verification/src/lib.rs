//! A verified land-tokenization registry.
//!
//! The registry binds, for each plot of land, a caller-supplied verification
//! number to an owner address, a price, and a linked NFT address, under a
//! registry-assigned token id. All state is held in an explicit
//! [`contract::SytemapRegistry`] value; the surrounding host (persistent
//! storage, the clock, the event sink) hands in and receives plain values.

pub mod contract;
pub mod error;
pub mod events;
pub mod types;
pub mod util;
