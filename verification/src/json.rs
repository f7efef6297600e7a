//! The boundary with the `serde_json` crate: a JSON object whose values are
//! all strings, filled entry by entry and then encoded as text.

use serde_json::Value;
use vstd::prelude::*;

verus! {

/// `serde_json::Map`, the entries of a JSON object. Nothing inside it is
/// visible here.
#[verifier::external_type_specification]
#[verifier::external_body]
#[verifier::reject_recursive_types(K)]
#[verifier::reject_recursive_types(V)]
pub struct ExJsonMap<K, V>(serde_json::Map<K, V>);

/// `serde_json::Value`, any JSON value. Nothing inside it is visible here.
#[verifier::external_type_specification]
#[verifier::external_body]
pub struct ExJsonValue(Value);

/// A JSON object as `serde_json` holds it.
pub type JsonObject = serde_json::Map<String, Value>;

/// The entries of a JSON object whose values are strings: key to value.
pub uninterp spec fn object_fields(obj: &JsonObject) -> Map<Seq<char>, Seq<char>>;

/// Whether every value of a JSON object is a string, so that
/// `object_fields` shows all of it.
pub uninterp spec fn only_strings(obj: &JsonObject) -> bool;

/// The compact JSON text of an object with the given string entries, as
/// `serde_json` writes it: keys and values quoted and escaped, the keys in
/// the order in which its map holds them.
pub uninterp spec fn object_text(fields: Map<Seq<char>, Seq<char>>) -> Seq<char>;

/// The entries of an object that has none.
pub open spec fn no_fields() -> Map<Seq<char>, Seq<char>> {
    Map::empty()
}

/// `Map::new` makes an object without entries.
#[verifier::external_body]
pub(crate) fn new_object() -> (obj: JsonObject)
    ensures
        object_fields(&obj) == no_fields(),
        only_strings(&obj),
{
    serde_json::Map::new()
}

/// `Map::insert` with a string value: the entry for `key` is added, or
/// replaced where the object had one, and the other entries stay.
#[verifier::external_body]
pub(crate) fn set_field(obj: &mut JsonObject, key: &str, value: &str)
    ensures
        object_fields(final(obj)) == object_fields(old(obj)).insert(key@, value@),
        only_strings(old(obj)) ==> only_strings(final(obj)),
{
    obj.insert(key.to_string(), Value::String(value.to_string()));
}

/// `Value::to_string` on `Value::Object`: the compact JSON text of the
/// object. The map keeps its keys sorted, so for an object of strings the
/// text depends on the entries alone, not on the order in which they were
/// set.
#[verifier::external_body]
pub(crate) fn encode_object(obj: JsonObject) -> (text: String)
    requires
        only_strings(&obj),
    ensures
        text@ == object_text(object_fields(&obj)),
{
    Value::Object(obj).to_string()
}

} // verus!
