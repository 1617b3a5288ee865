//! Fungible token metadata.

use vstd::prelude::*;

verus! {

/// Version of the metadata spec implemented here.
pub const FT_METADATA_SPEC: &'static str = "ft-1.0.0";

/// Fungible token metadata.
#[derive(Debug)]
pub struct ContractMetadata {
    /// Version of the metadata spec this metadata follows.
    pub spec: String,
    /// Human-friendly name of the token contract.
    pub name: String,
    /// Short, ideally unique string to concisely identify the token contract.
    pub symbol: String,
    /// String representation (an HTTP URL, data URL, or similar) of an icon
    /// for this token.
    pub icon: Option<String>,
    /// External (off-chain) URL to additional metadata for this token contract.
    pub reference: Option<String>,
    /// Hash of the content behind the `reference` field, for tamper protection.
    pub reference_hash: Option<Vec<u8>>,
    /// Cosmetic. Number of base-10 decimal places to shift the decimal point.
    pub decimals: u8,
}

impl ContractMetadata {
    /// Creates a new metadata struct with the current spec version.
    #[must_use]
    pub fn new(name: String, symbol: String, decimals: u8) -> (r: Self)
        ensures
            r.spec@ == FT_METADATA_SPEC@,
            r.name == name,
            r.symbol == symbol,
            r.icon is None,
            r.reference is None,
            r.reference_hash is None,
            r.decimals == decimals,
    {
        Self {
            spec: String::from_str(FT_METADATA_SPEC),
            name,
            symbol,
            icon: None,
            reference: None,
            reference_hash: None,
            decimals,
        }
    }

    /// Sets the spec field.
    #[must_use]
    pub fn spec(self, spec: String) -> (r: Self)
        ensures
            r == (ContractMetadata { spec, ..self }),
    {
        Self { spec, ..self }
    }

    /// Sets the name field.
    #[must_use]
    pub fn name(self, name: String) -> (r: Self)
        ensures
            r == (ContractMetadata { name, ..self }),
    {
        Self { name, ..self }
    }

    /// Sets the symbol field.
    #[must_use]
    pub fn symbol(self, symbol: String) -> (r: Self)
        ensures
            r == (ContractMetadata { symbol, ..self }),
    {
        Self { symbol, ..self }
    }

    /// Sets the icon field.
    #[must_use]
    pub fn icon(self, icon: String) -> (r: Self)
        ensures
            r == (ContractMetadata { icon: Some(icon), ..self }),
    {
        Self { icon: Some(icon), ..self }
    }

    /// Sets the reference field.
    #[must_use]
    pub fn reference(self, reference: String) -> (r: Self)
        ensures
            r == (ContractMetadata { reference: Some(reference), ..self }),
    {
        Self { reference: Some(reference), ..self }
    }

    /// Sets the `reference_hash` field.
    #[must_use]
    pub fn reference_hash(self, reference_hash: Vec<u8>) -> (r: Self)
        ensures
            r == (ContractMetadata { reference_hash: Some(reference_hash), ..self }),
    {
        Self { reference_hash: Some(reference_hash), ..self }
    }

    /// Sets the decimals field.
    #[must_use]
    pub fn decimals(self, decimals: u8) -> (r: Self)
        ensures
            r == (ContractMetadata { decimals, ..self }),
    {
        Self { decimals, ..self }
    }
}

} // verus!
