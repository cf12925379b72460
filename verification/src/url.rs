//! Where a resource is found: at an address, or among the bundled assets.

use vstd::prelude::*;
use vstd::string::*;

verus! {

/// `dioxus::prelude::Asset`, a bundled asset. It is carried as it is; nothing
/// here looks into it.
#[verifier::external_type_specification]
#[verifier::external_body]
pub struct ExAsset(dioxus::prelude::Asset);

/// `clone` of `dioxus::prelude::Asset`, a `Copy` type whose `Clone` is
/// derived: the clone is the asset itself.
pub assume_specification[ <dioxus::prelude::Asset as Clone>::clone ](
    asset: &dioxus::prelude::Asset,
) -> (copy: dioxus::prelude::Asset)
    ensures
        copy == *asset,
;

/// The place of a resource.
#[derive(Clone, PartialEq)]
pub enum Url {
    External(String),
    Internal(dioxus::prelude::Asset),
}

/// Calls `to_string` of `dioxus::prelude::Asset`, which writes the path that
/// the asset resolves to. The path depends on how and where the program was
/// bundled, so nothing is claimed of it.
#[verifier::external_body]
fn asset_path(asset: &dioxus::prelude::Asset) -> (path: String) {
    asset.to_string()
}

impl Url {
    /// The address as text: an outside address is written as it is, a bundled
    /// asset as the path it resolves to.
    pub fn to_string(&self) -> (s: String)
        ensures
            self matches Url::External(address) ==> s@ == address@,
    {
        match self {
            Url::External(address) => address.clone(),
            Url::Internal(asset) => asset_path(asset),
        }
    }
}

} // verus!
