//! Reading the remote platform's replies: a JSON object is parsed by
//! `serde_json`, and the members that a reply must hold are picked out of it.

use crate::roblox::{GamepassResponse, ProductResponse, RemoteInfoView};
use vstd::prelude::*;
use vstd::string::*;

verus! {

/// The value of one member of a JSON object, as far as a reply is read.
#[derive(Debug)]
pub enum JsonScalar {
    /// The literal `null`.
    Null,
    /// A number; the integer it holds if it is one that fits in 64 bits.
    Number(Option<i64>),
    /// A string.
    Text(String),
    /// A boolean, an array or an object.
    Other,
}

/// Mathematical value of a [`JsonScalar`].
pub enum JsonScalarView {
    Null,
    Number(Option<i64>),
    Text(Seq<char>),
    Other,
}

impl View for JsonScalar {
    type V = JsonScalarView;

    open spec fn view(&self) -> JsonScalarView {
        match self {
            JsonScalar::Null => JsonScalarView::Null,
            JsonScalar::Number(n) => JsonScalarView::Number(*n),
            JsonScalar::Text(s) => JsonScalarView::Text(s@),
            JsonScalar::Other => JsonScalarView::Other,
        }
    }
}

/// One member of a JSON object: its key and its value.
#[derive(Debug)]
pub struct JsonMember {
    pub key: String,
    pub value: JsonScalar,
}

impl View for JsonMember {
    type V = (Seq<char>, JsonScalarView);

    open spec fn view(&self) -> (Seq<char>, JsonScalarView) {
        (self.key@, self.value@)
    }
}

/// The members of a parsed object by their views, or `None` where the text
/// was no object.
pub open spec fn members_view(members: Option<Vec<JsonMember>>) -> Option<
    Seq<(Seq<char>, JsonScalarView)>,
> {
    match members {
        Some(list) => Some(list@.map_values(|m: JsonMember| m@)),
        None => None,
    }
}

/// What `serde_json` reads out of a text: the members of the JSON object that
/// the text holds, or `None` where the text is not exactly one JSON object.
pub uninterp spec fn json_object(text: Seq<char>) -> Option<Seq<(Seq<char>, JsonScalarView)>>;

/// Calls `serde_json::from_str` to read `text` as a JSON object and hands out
/// its members, each value reduced to what a reply is read for. Trusted: the
/// members are those that `serde_json` finds, and they depend on the text
/// alone.
#[verifier::external_body]
fn parse_object(text: &str) -> (members: Option<Vec<JsonMember>>)
    ensures
        members_view(members) == json_object(text@),
{
    let object: serde_json::Map<String, serde_json::Value> = serde_json::from_str(text).ok()?;
    let scalar = |value: serde_json::Value| match value {
        serde_json::Value::Null => JsonScalar::Null,
        serde_json::Value::Number(n) => JsonScalar::Number(n.as_i64()),
        serde_json::Value::String(s) => JsonScalar::Text(s),
        serde_json::Value::Bool(_) => JsonScalar::Other,
        serde_json::Value::Array(_) => JsonScalar::Other,
        serde_json::Value::Object(_) => JsonScalar::Other,
    };
    Some(object.into_iter().map(|(key, value)| JsonMember { key, value: scalar(value) }).collect())
}

/// The value of the first member with the given key, if there is one.
pub open spec fn member(members: Seq<(Seq<char>, JsonScalarView)>, key: Seq<char>) -> Option<
    JsonScalarView,
>
    decreases members.len(),
{
    if members.len() == 0 {
        None
    } else if members[0].0 == key {
        Some(members[0].1)
    } else {
        member(members.drop_first(), key)
    }
}

/// A member that must be an integer.
pub open spec fn required_int(members: Seq<(Seq<char>, JsonScalarView)>, key: Seq<char>) -> Option<
    i64,
> {
    match member(members, key) {
        Some(JsonScalarView::Number(Some(n))) => Some(n),
        _ => None,
    }
}

/// A member that must be a string.
pub open spec fn required_text(
    members: Seq<(Seq<char>, JsonScalarView)>,
    key: Seq<char>,
) -> Option<Seq<char>> {
    match member(members, key) {
        Some(JsonScalarView::Text(s)) => Some(s),
        _ => None,
    }
}

/// A member that may be missing or `null`, and is an integer otherwise. The
/// outer `None` says that the member is there and is something else.
pub open spec fn optional_int(members: Seq<(Seq<char>, JsonScalarView)>, key: Seq<char>) -> Option<
    Option<i64>,
> {
    match member(members, key) {
        None => Some(None),
        Some(JsonScalarView::Null) => Some(None),
        Some(JsonScalarView::Number(Some(n))) => Some(Some(n)),
        _ => None,
    }
}

/// What a reply says once its members are known: the identifier under
/// `id_key`, the name under `name`, and the icon asset under `icon_key`. It is
/// `None` where the identifier or the name is missing or of the wrong type, or
/// the icon is neither missing, `null` nor an integer.
pub open spec fn info_of(
    members: Seq<(Seq<char>, JsonScalarView)>,
    id_key: Seq<char>,
    icon_key: Seq<char>,
) -> Option<RemoteInfoView> {
    match (
        required_int(members, id_key),
        required_text(members, "name"@),
        optional_int(members, icon_key),
    ) {
        (Some(id), Some(name), Some(icon)) => Some(
            RemoteInfoView {
                id: id as int,
                name,
                icon: match icon {
                    Some(i) => Some(i as int),
                    None => None,
                },
            },
        ),
        _ => None,
    }
}

/// What the body of a reply says of a developer product.
pub open spec fn product_info(body: Seq<char>) -> Option<RemoteInfoView> {
    match json_object(body) {
        Some(members) => info_of(members, "productId"@, "iconImageAssetId"@),
        None => None,
    }
}

/// What the body of a reply says of a game pass.
pub open spec fn gamepass_info(body: Seq<char>) -> Option<RemoteInfoView> {
    match json_object(body) {
        Some(members) => info_of(members, "gamePassId"@, "iconAssetId"@),
        None => None,
    }
}

/// The views of the members of a list, in order.
pub open spec fn members_seq(members: Seq<JsonMember>) -> Seq<(Seq<char>, JsonScalarView)> {
    members.map_values(|m: JsonMember| m@)
}

/// Finds the first member with the given key.
pub fn find_member<'a>(members: &'a Vec<JsonMember>, key: &str) -> (found: Option<&'a JsonScalar>)
    ensures
        match found {
            Some(value) => member(members_seq(members@), key@) == Some(value@),
            None => member(members_seq(members@), key@) is None,
        },
{
    let wanted = String::from_str(key);
    let mut i: usize = 0;
    assert(members_seq(members@).subrange(0, members.len() as int) =~= members_seq(members@));
    while i < members.len()
        invariant
            i <= members.len(),
            wanted@ == key@,
            member(members_seq(members@), key@) == member(
                members_seq(members@).subrange(i as int, members.len() as int),
                key@,
            ),
        decreases members.len() - i,
    {
        let ghost rest = members_seq(members@).subrange(i as int, members.len() as int);
        assert(rest[0] == members[i as int]@);
        assert(rest.drop_first() =~= members_seq(members@).subrange(
            i as int + 1,
            members.len() as int,
        ));
        if members[i].key == wanted {
            return Some(&members[i].value);
        }
        i += 1;
    }
    None
}

/// Reads the identifier, the name and the icon asset out of the members of a
/// reply.
pub fn read_info(members: &Vec<JsonMember>, id_key: &str, icon_key: &str) -> (info: Option<
    (i64, String, Option<i64>),
>)
    ensures
        match info {
            Some((id, name, icon)) => info_of(members_seq(members@), id_key@, icon_key@) == Some(
                RemoteInfoView {
                    id: id as int,
                    name: name@,
                    icon: match icon {
                        Some(i) => Some(i as int),
                        None => None,
                    },
                },
            ),
            None => info_of(members_seq(members@), id_key@, icon_key@) is None,
        },
{
    let id = match find_member(members, id_key) {
        Some(JsonScalar::Number(Some(n))) => *n,
        _ => { return None; },
    };
    let name = match find_member(members, "name") {
        Some(JsonScalar::Text(s)) => s.clone(),
        _ => { return None; },
    };
    let icon = match find_member(members, icon_key) {
        None => None,
        Some(JsonScalar::Null) => None,
        Some(JsonScalar::Number(Some(n))) => Some(*n),
        _ => { return None; },
    };
    Some((id, name, icon))
}

/// Decodes the body of a reply about a developer product. `None` says that
/// the body is malformed.
pub fn decode_product(body: &str) -> (info: Option<ProductResponse>)
    ensures
        match info {
            Some(response) => product_info(body@) == Some(response@),
            None => product_info(body@) is None,
        },
{
    match parse_object(body) {
        Some(members) => match read_info(&members, "productId", "iconImageAssetId") {
            Some((id, name, icon)) => Some(
                ProductResponse { product_id: id, name, icon_image_asset_id: icon },
            ),
            None => None,
        },
        None => None,
    }
}

/// Decodes the body of a reply about a game pass. `None` says that the body
/// is malformed.
pub fn decode_gamepass(body: &str) -> (info: Option<GamepassResponse>)
    ensures
        match info {
            Some(response) => gamepass_info(body@) == Some(response@),
            None => gamepass_info(body@) is None,
        },
{
    match parse_object(body) {
        Some(members) => match read_info(&members, "gamePassId", "iconAssetId") {
            Some((id, name, icon)) => Some(
                GamepassResponse { game_pass_id: id, name, icon_asset_id: icon },
            ),
            None => None,
        },
        None => None,
    }
}

} // verus!
