//! JSON payloads that capability records carry without looking inside.
use std::collections::BTreeMap;
use vstd::prelude::*;

verus! {

/// `serde_json::Value`, one JSON value. It is opaque here: the library moves
/// such values around and never inspects them.
#[verifier::external_type_specification]
#[verifier::external_body]
pub struct ExJsonValue(serde_json::Value);

/// `serde_json::Map`, the JSON object type of `serde_json`. It is opaque here;
/// what an object holds is named by [`object_entries`].
#[verifier::external_type_specification]
#[verifier::external_body]
#[verifier::reject_recursive_types(K)]
#[verifier::reject_recursive_types(V)]
pub struct ExJsonMap<K, V>(serde_json::Map<K, V>);

/// A JSON object: the options of a capability whose settings this library
/// does not interpret.
pub type JsonObject = serde_json::Map<String, serde_json::Value>;

/// What a [`JsonObject`] holds: its values by key.
pub type ObjectView = Map<String, serde_json::Value>;

/// Experimental capabilities: free-form metadata by name.
pub type ExperimentalCapabilities = BTreeMap<String, JsonObject>;

/// What an [`ExperimentalCapabilities`] map holds: the entries of each object by name.
pub type ExperimentalView = Map<String, ObjectView>;

/// What a `serde_json::Map<String, Value>` holds: its value for each of its
/// keys. The values themselves stay opaque.
pub uninterp spec fn object_entries(o: JsonObject) -> ObjectView;

/// The entries of an optional JSON object.
pub open spec fn optional_object_entries(o: Option<JsonObject>) -> Option<ObjectView> {
    match o {
        Some(object) => Some(object_entries(object)),
        None => None,
    }
}

/// The contents of an experimental-capabilities map, each object by its entries.
pub open spec fn experimental_entries(m: ExperimentalCapabilities) -> ExperimentalView {
    m@.map_values(|o: JsonObject| object_entries(o))
}

/// The contents of an optional experimental-capabilities map.
pub open spec fn optional_experimental_entries(
    m: Option<ExperimentalCapabilities>,
) -> Option<ExperimentalView> {
    match m {
        Some(entries) => Some(experimental_entries(entries)),
        None => None,
    }
}

/// Calls `<serde_json::Map<String, Value> as Default>::default`, which returns
/// `Map::new()`: a new map without entries. The contract claims just that,
/// that the object returned has no entry.
#[verifier::external_body]
pub(crate) fn default_object() -> (r: JsonObject)
    ensures
        object_entries(r) == ObjectView::empty(),
{
    JsonObject::default()
}

/// A new experimental-capabilities map, which is empty.
pub(crate) fn default_experimental() -> (r: ExperimentalCapabilities)
    ensures
        experimental_entries(r) == ExperimentalView::empty(),
{
    let r = ExperimentalCapabilities::default();
    assert(experimental_entries(r) =~= ExperimentalView::empty());
    r
}

} // verus!
