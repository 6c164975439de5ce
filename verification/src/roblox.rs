//! The remote platform's data shapes and endpoint addresses.

use crate::text::{decimal, push_decimal};
use vstd::prelude::*;
use vstd::string::*;

pub mod api;
pub mod json;

verus! {

/// The payload of a create or an update: the fields of a catalog entry that
/// the remote platform stores.
#[derive(Debug)]
pub struct Product {
    pub name: String,
    pub description: String,
    pub image_file: String,
    pub price: i64,
    pub regional_pricing: bool,
}

/// Mathematical value of a [`Product`].
pub struct ProductView {
    pub name: Seq<char>,
    pub description: Seq<char>,
    pub image_file: Seq<char>,
    pub price: int,
    pub regional_pricing: bool,
}

impl View for Product {
    type V = ProductView;

    open spec fn view(&self) -> ProductView {
        ProductView {
            name: self.name@,
            description: self.description@,
            image_file: self.image_file@,
            price: self.price as int,
            regional_pricing: self.regional_pricing,
        }
    }
}

impl Clone for Product {
    fn clone(&self) -> (copy: Self)
        ensures
            copy@ == self@,
    {
        Product {
            name: self.name.clone(),
            description: self.description.clone(),
            image_file: self.image_file.clone(),
            price: self.price,
            regional_pricing: self.regional_pricing,
        }
    }
}

/// What the remote platform reports of a developer product.
#[derive(Debug)]
pub struct ProductResponse {
    pub product_id: i64,
    pub name: String,
    pub icon_image_asset_id: Option<i64>,
}

/// What the remote platform reports of a game pass.
#[derive(Debug)]
pub struct GamepassResponse {
    pub game_pass_id: i64,
    pub name: String,
    pub icon_asset_id: Option<i64>,
}

/// Mathematical value of a response of either kind: the assigned identifier,
/// the current name and the icon asset, if one is assigned.
pub struct RemoteInfoView {
    pub id: int,
    pub name: Seq<char>,
    pub icon: Option<int>,
}

impl View for ProductResponse {
    type V = RemoteInfoView;

    open spec fn view(&self) -> RemoteInfoView {
        RemoteInfoView {
            id: self.product_id as int,
            name: self.name@,
            icon: match self.icon_image_asset_id {
                Some(icon) => Some(icon as int),
                None => None,
            },
        }
    }
}

impl View for GamepassResponse {
    type V = RemoteInfoView;

    open spec fn view(&self) -> RemoteInfoView {
        RemoteInfoView {
            id: self.game_pass_id as int,
            name: self.name@,
            icon: match self.icon_asset_id {
                Some(icon) => Some(icon as int),
                None => None,
            },
        }
    }
}

impl Clone for ProductResponse {
    fn clone(&self) -> (copy: Self)
        ensures
            copy@ == self@,
    {
        ProductResponse {
            product_id: self.product_id,
            name: self.name.clone(),
            icon_image_asset_id: self.icon_image_asset_id,
        }
    }
}

impl Clone for GamepassResponse {
    fn clone(&self) -> (copy: Self)
        ensures
            copy@ == self@,
    {
        GamepassResponse {
            game_pass_id: self.game_pass_id,
            name: self.name.clone(),
            icon_asset_id: self.icon_asset_id,
        }
    }
}

/// Address of the collection of game passes of a universe.
pub open spec fn gamepass_url_spec(universe_id: int) -> Seq<char> {
    "https://apis.roblox.com/game-passes/v1/universes/"@ + decimal(universe_id)
        + "/game-passes"@
}

/// Address of the collection of developer products of a universe.
pub open spec fn product_url_spec(universe_id: int) -> Seq<char> {
    "https://apis.roblox.com/developer-products/v2/universes/"@ + decimal(universe_id)
        + "/developer-products"@
}

/// Address of one game pass: its collection, a slash and its identifier.
pub open spec fn gamepass_update_url_spec(universe_id: int, id: int) -> Seq<char> {
    gamepass_url_spec(universe_id) + "/"@ + decimal(id)
}

/// Address of one developer product: its collection, a slash and its
/// identifier.
pub open spec fn product_update_url_spec(universe_id: int, id: int) -> Seq<char> {
    product_url_spec(universe_id) + "/"@ + decimal(id)
}

/// Address at which the full description of one game pass is fetched.
pub open spec fn gamepass_info_url_spec(universe_id: int, id: int) -> Seq<char> {
    gamepass_update_url_spec(universe_id, id) + "/creator"@
}

/// Address at which the full description of one developer product is fetched.
pub open spec fn product_info_url_spec(universe_id: int, id: int) -> Seq<char> {
    product_update_url_spec(universe_id, id) + "/creator"@
}

pub fn gamepass_url(universe_id: i64) -> (url: String)
    ensures
        url@ == gamepass_url_spec(universe_id as int),
{
    let mut url = String::from_str("https://apis.roblox.com/game-passes/v1/universes/");
    push_decimal(&mut url, universe_id);
    url.append("/game-passes");
    url
}

pub fn product_url(universe_id: i64) -> (url: String)
    ensures
        url@ == product_url_spec(universe_id as int),
{
    let mut url = String::from_str("https://apis.roblox.com/developer-products/v2/universes/");
    push_decimal(&mut url, universe_id);
    url.append("/developer-products");
    url
}

pub fn gamepass_update_url(universe_id: i64, id: i64) -> (url: String)
    ensures
        url@ == gamepass_update_url_spec(universe_id as int, id as int),
{
    let mut url = gamepass_url(universe_id);
    url.append("/");
    push_decimal(&mut url, id);
    url
}

pub fn product_update_url(universe_id: i64, id: i64) -> (url: String)
    ensures
        url@ == product_update_url_spec(universe_id as int, id as int),
{
    let mut url = product_url(universe_id);
    url.append("/");
    push_decimal(&mut url, id);
    url
}

pub fn gamepass_info_url(universe_id: i64, id: i64) -> (url: String)
    ensures
        url@ == gamepass_info_url_spec(universe_id as int, id as int),
{
    let mut url = gamepass_update_url(universe_id, id);
    url.append("/creator");
    url
}

pub fn product_info_url(universe_id: i64, id: i64) -> (url: String)
    ensures
        url@ == product_info_url_spec(universe_id as int, id as int),
{
    let mut url = product_update_url(universe_id, id);
    url.append("/creator");
    url
}

} // verus!
