//! The parts of serde_json's document tree that the payload reader uses.
use vstd::prelude::*;

verus! {

/// serde_json's document tree, carried through opaque.
#[verifier::external_type_specification]
#[verifier::external_body]
pub struct ExValue(serde_json::Value);

/// serde_json's parse error, carried through opaque.
#[verifier::external_type_specification]
#[verifier::external_body]
pub struct ExJsonError(serde_json::Error);

/// The document tree that serde_json reads from JSON text, if the text is
/// JSON; it depends on the text alone.
pub uninterp spec fn json_document(text: Seq<char>) -> Option<serde_json::Value>;

/// The value that a JSON pointer names in a document tree, if any.
pub uninterp spec fn json_pointer(v: serde_json::Value, pointer: Seq<char>) -> Option<serde_json::Value>;

/// The elements of a value, where it is an array.
pub uninterp spec fn json_array(v: serde_json::Value) -> Option<Seq<serde_json::Value>>;

/// The text of a value, where it is a string.
pub uninterp spec fn json_str(v: serde_json::Value) -> Option<Seq<char>>;

/// Relies on `Value::pointer`: the value that a JSON pointer names, if any.
pub assume_specification<'a>[ serde_json::Value::pointer ](
    v: &'a serde_json::Value,
    pointer: &str,
) -> (r: Option<&'a serde_json::Value>)
    ensures
        r matches Some(x) ==> json_pointer(*v, pointer@) == Some(*x),
        r is None ==> json_pointer(*v, pointer@) is None,
;

/// Relies on `Value::as_array`: the elements, where the value is an array.
pub assume_specification[ serde_json::Value::as_array ](
    v: &serde_json::Value,
) -> (r: Option<&Vec<serde_json::Value>>)
    ensures
        r matches Some(items) ==> json_array(*v) == Some(items@),
        r is None ==> json_array(*v) is None,
;

/// Relies on `Value::as_str`: the text, where the value is a string.
pub assume_specification[ serde_json::Value::as_str ](v: &serde_json::Value) -> (r: Option<&str>)
    ensures
        r matches Some(text) ==> json_str(*v) == Some(text@),
        r is None ==> json_str(*v) is None,
;

} // verus!
