//! Token metadata, after the fungible-token metadata standard.

use vstd::prelude::*;

verus! {

/// The version string a conforming token's metadata carries.
pub const FT_METADATA_SPEC: &'static str = "ft-1.0.0";

/// Descriptive data of a fungible token.
///
/// `standard` carries the metadata standard's version string (the field the
/// standard itself calls `spec`).
pub struct FungibleTokenMetadata {
    /// The metadata standard version, normally [`FT_METADATA_SPEC`].
    pub standard: String,
    /// The human-readable token name.
    pub name: String,
    /// The ticker symbol.
    pub symbol: String,
    /// An optional icon, as a data URL.
    pub icon: Option<String>,
    /// An optional link to more metadata.
    pub reference: Option<String>,
    /// The hash of the referenced metadata, when `reference` is set.
    pub reference_hash: Option<Vec<u8>>,
    /// The number of decimals the token amounts use.
    pub decimals: u8,
}

impl Clone for FungibleTokenMetadata {
    /// A clone reads field for field like the value it was made from.
    fn clone(&self) -> (r: Self)
        ensures
            r.standard@ == self.standard@,
            r.name@ == self.name@,
            r.symbol@ == self.symbol@,
            r.icon == self.icon,
            r.reference == self.reference,
            r.reference_hash matches Some(h) ==> self.reference_hash matches Some(h2) && h@ == h2@,
            r.reference_hash is Some <==> self.reference_hash is Some,
            r.decimals == self.decimals,
    {
        FungibleTokenMetadata {
            standard: self.standard.clone(),
            name: self.name.clone(),
            symbol: self.symbol.clone(),
            icon: self.icon.clone(),
            reference: self.reference.clone(),
            reference_hash: self.reference_hash.clone(),
            decimals: self.decimals,
        }
    }
}

} // verus!
