use vstd::prelude::*;

verus! {

/// Declares serde_json's `Value`, the parsed spec document, as an opaque
/// outside type: values of it are only carried through, read by the wrappers
/// below, and spoken of through the named reads beside them.
#[verifier::external_type_specification]
#[verifier::external_body]
pub struct ExValue(serde_json::Value);

/// Declares serde_json's `Map`, the keyed document store, as an opaque
/// outside type.
#[verifier::external_type_specification]
#[verifier::external_body]
#[verifier::reject_recursive_types(K)]
#[verifier::reject_recursive_types(V)]
pub struct ExJsonMap<K, V>(serde_json::Map<K, V>);

/// The field stored under `key` when the JSON value is an object carrying
/// that key, `None` otherwise: the result of `Value::get`, a function of the
/// value and the key alone.
pub uninterp spec fn field_of(v: serde_json::Value, key: Seq<char>) -> Option<serde_json::Value>;

/// The string content when the JSON value is a string, `None` otherwise: the
/// result of `Value::as_str`, a function of the value alone.
pub uninterp spec fn str_of(v: serde_json::Value) -> Option<Seq<char>>;

/// The boolean when the JSON value is a boolean, `None` otherwise: the
/// result of `Value::as_bool`, a function of the value alone.
pub uninterp spec fn bool_of(v: serde_json::Value) -> Option<bool>;

/// The elements when the JSON value is an array, `None` otherwise: the
/// result of `Value::as_array`, a function of the value alone.
pub uninterp spec fn elems_of(v: serde_json::Value) -> Option<Seq<serde_json::Value>>;

/// The key set when the JSON value is an object, `None` otherwise: what
/// `Value::as_object` exposes, a function of the value alone.
pub uninterp spec fn obj_keys(v: serde_json::Value) -> Option<Set<Seq<char>>>;

/// The key set of a JSON object map: what the document store holds.
pub uninterp spec fn map_keys(m: serde_json::Map<String, serde_json::Value>) -> Set<Seq<char>>;

/// Relies on serde_json's `Value::get` with a string key: looks `key` up
/// when the value is a JSON object, `None` when it is not or the key is
/// absent. The found field is handed out as a clone.
#[verifier::external_body]
pub(crate) fn value_get(v: &serde_json::Value, key: &str) -> (r: Option<serde_json::Value>)
    ensures
        r == field_of(*v, key@),
{
    v.get(key).cloned()
}

/// Relies on serde_json's `Value::as_str`: the string content when the value
/// is a JSON string, `None` otherwise. The content is handed out owned.
#[verifier::external_body]
pub(crate) fn value_as_str(v: &serde_json::Value) -> (r: Option<String>)
    ensures
        r.deep_view() == str_of(*v),
{
    v.as_str().map(|s| s.to_string())
}

/// Relies on serde_json's `Value::as_bool`: the boolean when the value is a
/// JSON boolean, `None` otherwise.
#[verifier::external_body]
pub(crate) fn value_as_bool(v: &serde_json::Value) -> (r: Option<bool>)
    ensures
        r == bool_of(*v),
{
    v.as_bool()
}

/// Relies on serde_json's `Value::as_array`: the elements when the value is a
/// JSON array, `None` otherwise. The elements are handed out as clones.
#[verifier::external_body]
pub(crate) fn value_as_array(v: &serde_json::Value) -> (r: Option<Vec<serde_json::Value>>)
    ensures
        (r is Some) == (elems_of(*v) is Some),
        r is Some ==> elems_of(*v) == Option::Some(r.unwrap()@),
{
    v.as_array().cloned()
}

/// Relies on serde_json's `Value::as_object`: the key-to-value map when the
/// value is a JSON object, `None` otherwise. The map is handed out as a
/// clone, its key set that of the value.
#[verifier::external_body]
pub(crate) fn value_as_object(v: &serde_json::Value) -> (r: Option<
    serde_json::Map<String, serde_json::Value>,
>)
    ensures
        (r is Some) == (obj_keys(*v) is Some),
        r is Some ==> obj_keys(*v) == Option::Some(map_keys(r.unwrap())),
{
    v.as_object().cloned()
}

/// Relies on serde_json's `Map::get`: the value stored under `key` — found
/// exactly when `key` is in the map's key set — handed out as a clone.
#[verifier::external_body]
pub(crate) fn object_get(
    m: &serde_json::Map<String, serde_json::Value>,
    key: &str,
) -> (r: Option<serde_json::Value>)
    ensures
        (r is Some) == map_keys(*m).contains(key@),
{
    m.get(key).cloned()
}

} // verus!
