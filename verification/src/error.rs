use vstd::prelude::*;

verus! {

/// The recoverable failure conditions the registry reports to its callers.
#[derive(Clone, Copy, Debug, PartialEq, Eq, PartialOrd, Ord, Structural)]
pub enum SytemapRegistryError {
    /// A mint was attempted for a verification number already on record.
    AlreadyMinted,
    /// Reserved: a property record already exists for the given key.
    PropertyAlreadyExists,
    /// A price update was requested with a price of zero.
    InvalidPrice,
    /// A lookup by verification number, NFT address or token id missed.
    PropertyNotFound,
    /// A mint was attempted with an NFT address that is already mapped.
    NftAddressAlreadyInUse,
    /// Initialization was attempted after metadata already exists.
    AlreadyInitialized,
}

} // verus!
