//! Writing the flat JSON objects that the tool server answers with.
//!
//! The object is a `serde_json::Map`, filled member by member and written
//! out by `serde_json`.

use serde_json::{Map as JsonMap, Value};
use vstd::prelude::*;
use vstd::string::*;

verus! {

/// `serde_json::Map`, the members of a JSON object.
#[verifier::external_type_specification]
#[verifier::external_body]
#[verifier::reject_recursive_types(K)]
#[verifier::reject_recursive_types(V)]
pub struct ExJsonMap<K, V>(JsonMap<K, V>);

/// What a member of an answer holds.
#[derive(Debug)]
pub enum Item {
    Flag(bool),
    Text(String),
    Count(u64),
}

/// What an [`Item`] stands for.
pub enum Field {
    Flag(bool),
    Text(Seq<char>),
    Count(u64),
}

impl View for Item {
    type V = Field;

    open spec fn view(&self) -> Field {
        match self {
            Item::Flag(flag) => Field::Flag(*flag),
            Item::Text(text) => Field::Text(text@),
            Item::Count(count) => Field::Count(*count),
        }
    }
}

impl Item {
    /// An item that holds a text.
    pub fn text(text: &str) -> (item: Item)
        ensures
            item@ == Field::Text(text@),
    {
        Item::Text(text.to_owned())
    }
}

/// No members.
pub open spec fn no_members() -> Map<Seq<char>, Field> {
    Map::empty()
}

/// The members that an object holds, by name.
pub uninterp spec fn members(object: JsonMap<String, Value>) -> Map<Seq<char>, Field>;

/// The JSON text that `serde_json` writes for an object with these members.
pub uninterp spec fn object_text(members: Map<Seq<char>, Field>) -> Seq<char>;

/// Calls `serde_json::Map::new`: an object without members.
#[verifier::external_body]
pub(crate) fn new_object() -> (object: JsonMap<String, Value>)
    ensures
        members(object) == no_members(),
{
    JsonMap::new()
}

/// Calls `serde_json::Map::insert` with the item as a JSON string, boolean
/// or number: the member `name` now holds the item, the other members are
/// as before.
#[verifier::external_body]
pub(crate) fn put(object: &mut JsonMap<String, Value>, name: &str, item: Item)
    ensures
        members(*final(object)) == members(*old(object)).insert(name@, item@),
{
    let value = match item {
        Item::Flag(flag) => Value::Bool(flag),
        Item::Text(text) => Value::String(text),
        Item::Count(count) => Value::from(count),
    };
    object.insert(name.to_string(), value);
}

/// Calls `serde_json::to_string` on the object. The contract claims that
/// the text depends on the members alone, and names it. This holds of
/// `serde_json` as it is built here, where an object keeps its members in
/// the order of their names. The call fails only on a map whose names are
/// no strings or whose values refuse to be written, which this map and
/// its values rule out; the text for that case is there so that nothing
/// can panic, it is never handed out, and the contract does not hold of
/// it.
#[verifier::external_body]
pub(crate) fn write_object(object: &JsonMap<String, Value>) -> (text: String)
    ensures
        text@ == object_text(members(*object)),
{
    serde_json::to_string(object).unwrap_or_else(|_| "Error serializing response".to_string())
}

} // verus!
