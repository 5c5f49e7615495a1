//! JSON objects and their pretty-printed text, through serde_json.
use vstd::prelude::*;

verus! {

#[verifier::external_type_specification]
#[verifier::external_body]
pub struct ExJsonValue(serde_json::Value);

#[verifier::external_type_specification]
#[verifier::external_body]
#[verifier::reject_recursive_types(K)]
#[verifier::reject_recursive_types(V)]
pub struct ExJsonMap<K, V>(serde_json::Map<K, V>);

/// A JSON object, as serde_json holds it (ordered by key).
pub type JsonObject = serde_json::Map<String, serde_json::Value>;

/// The entries of a JSON object whose values are all strings: each key with
/// the text of its string value.
pub uninterp spec fn object_entries(m: JsonObject) -> Map<Seq<char>, Seq<char>>;

/// Whether every value of a JSON object is a string.
pub uninterp spec fn all_text_values(m: JsonObject) -> bool;

/// Relies on `serde_json::Map::new`: an object with no entries.
#[verifier::external_body]
pub(crate) fn empty_object() -> (r: JsonObject)
    ensures
        object_entries(r).dom() == Set::<Seq<char>>::empty(),
        all_text_values(r),
{
    serde_json::Map::new()
}

/// Relies on `serde_json::Map::insert`: the key is mapped to the string
/// value, replacing the value it had.
#[verifier::external_body]
pub(crate) fn insert_text(m: &mut JsonObject, key: String, value: String)
    ensures
        object_entries(*final(m)) == object_entries(*old(m)).insert(key@, value@),
        all_text_values(*old(m)) ==> all_text_values(*final(m)),
{
    m.insert(key, serde_json::Value::String(value));
}

/// The pretty-printed JSON text of an array of objects with string values,
/// as `serde_json::to_string_pretty` writes it.
pub uninterp spec fn pretty_json(objects: Seq<Map<Seq<char>, Seq<char>>>) -> Seq<char>;

/// The entries of each object.
pub open spec fn objects_entries(objects: Seq<JsonObject>) -> Seq<Map<Seq<char>, Seq<char>>> {
    objects.map_values(|m: JsonObject| object_entries(m))
}

/// Relies on `serde_json::to_string_pretty` for a slice of objects with
/// string keys and string values, which it always serialises: a `Value`
/// written into a `Vec` reports no error.
#[verifier::external_body]
pub(crate) fn to_pretty_text(objects: &Vec<JsonObject>) -> (r: Option<String>)
    requires
        forall|i: int| 0 <= i < objects@.len() ==> #[trigger] all_text_values(objects@[i]),
    ensures
        r is Some,
        r matches Some(s) ==> s@ == pretty_json(objects_entries(objects@)),
{
    serde_json::to_string_pretty(objects).ok()
}

} // verus!
