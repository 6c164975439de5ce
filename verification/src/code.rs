//! What the generation of source code is handed: for each item that a run has
//! touched, its identifier, its name and a reference to its icon.

use crate::roblox::api::RemoteInfo;
use crate::roblox::RemoteInfoView;
use crate::text::{decimal, push_decimal};
use vstd::prelude::*;
use vstd::string::*;

verus! {

/// One item as the generated code presents it.
#[derive(Debug)]
pub struct ProductCodeMap {
    pub name: String,
    pub id: i64,
    pub image: String,
}

/// Mathematical value of a [`ProductCodeMap`].
pub struct ProductCodeView {
    pub name: Seq<char>,
    pub id: int,
    pub image: Seq<char>,
}

impl View for ProductCodeMap {
    type V = ProductCodeView;

    open spec fn view(&self) -> ProductCodeView {
        ProductCodeView { name: self.name@, id: self.id as int, image: self.image@ }
    }
}

impl Clone for ProductCodeMap {
    fn clone(&self) -> (copy: Self)
        ensures
            copy@ == self@,
    {
        ProductCodeMap { name: self.name.clone(), id: self.id, image: self.image.clone() }
    }
}

/// The reference to an icon asset; an item without an icon refers to asset
/// zero.
pub open spec fn asset_reference(icon: Option<int>) -> Seq<char> {
    "rbxassetid://"@ + decimal(
        match icon {
            Some(asset) => asset,
            None => 0,
        },
    )
}

/// The entry that stands for an item of which the remote platform has
/// reported `info`.
pub open spec fn code_entry_spec(info: RemoteInfoView) -> ProductCodeView {
    ProductCodeView { name: info.name, id: info.id, image: asset_reference(info.icon) }
}

/// Derives the entry for the generated code from a report of the remote
/// platform.
pub fn code_entry(info: &RemoteInfo) -> (entry: ProductCodeMap)
    ensures
        entry@ == code_entry_spec(info@),
{
    let mut image = String::from_str("rbxassetid://");
    let asset = match info.icon {
        Some(asset) => asset,
        None => 0,
    };
    push_decimal(&mut image, asset);
    ProductCodeMap { name: info.name.clone(), id: info.id, image }
}

/// The entries of a map by their views, keyed by remote identifier.
pub open spec fn code_view(entries: Map<i64, ProductCodeMap>) -> Map<int, ProductCodeView> {
    Map::new(
        |id: int| i64::MIN <= id <= i64::MAX && entries.contains_key(id as i64),
        |id: int| entries[id as i64]@,
    )
}

} // verus!
