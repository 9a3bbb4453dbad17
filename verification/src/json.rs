//! The JSON layer: the request body is decoded with `serde_json`, behind a
//! small set of trusted items. The parsed document and its projections are
//! given names that the verified decoder's contracts are stated over.

use vstd::prelude::*;

verus! {

#[verifier::external_type_specification]
#[verifier::external_body]
pub struct ExJsonValue(serde_json::Value);

/// Whether the bytes form one well-formed JSON document
/// (`serde_json::from_slice::<Value>` succeeds on exactly those).
pub uninterp spec fn is_json(b: Seq<u8>) -> bool;

/// The value of the top-level field `key` of the document the bytes hold,
/// when the document is an object, the field is present, and its value is a
/// JSON string; `None` otherwise.
pub uninterp spec fn json_str_field(b: Seq<u8>, key: Seq<char>) -> Option<Seq<char>>;

/// Whether the document the bytes hold is an object with a top-level field
/// `key`, of whatever type.
pub uninterp spec fn json_has_field(b: Seq<u8>, key: Seq<char>) -> bool;

/// The top-level field `key` of a parsed document, as `serde_json::Value::get`
/// hands it out: `Some` exactly when the document is an object holding `key`.
pub uninterp spec fn doc_field(v: serde_json::Value, key: Seq<char>) -> Option<serde_json::Value>;

/// The characters of a parsed document, when it is a JSON string, as
/// `serde_json::Value::as_str` hands them out; `None` on any other document.
pub uninterp spec fn doc_as_str(v: serde_json::Value) -> Option<Seq<char>>;

/// The string value of the top-level field `key`: present and a string, or not.
pub open spec fn doc_str_field(v: serde_json::Value, key: Seq<char>) -> Option<Seq<char>> {
    match doc_field(v, key) {
        Some(f) => doc_as_str(f),
        None => None,
    }
}

/// Relies on `serde_json::from_slice::<Value>`: it succeeds exactly on bytes
/// that hold one well-formed JSON document, and the document it returns is a
/// function of the bytes alone, so its fields are the fields of the bytes.
#[verifier::external_body]
pub(crate) fn parse_json(bytes: &[u8]) -> (r: Option<serde_json::Value>)
    ensures
        r is Some <==> is_json(bytes@),
        r matches Some(v) ==> forall|k: Seq<char>|
            #[trigger] json_str_field(bytes@, k) == doc_str_field(v, k),
        r matches Some(v) ==> forall|k: Seq<char>|
            #[trigger] json_has_field(bytes@, k) == (doc_field(v, k) is Some),
{
    serde_json::from_slice::<serde_json::Value>(bytes).ok()
}

/// Relies on `serde_json::Value::get` with a string index: `Some` exactly
/// when the document is an object holding the key.
#[verifier::external_body]
pub(crate) fn get_field<'a>(v: &'a serde_json::Value, key: &str) -> (r: Option<
    &'a serde_json::Value,
>)
    ensures
        r matches Some(f) ==> doc_field(*v, key@) == Some(*f),
        r is None ==> doc_field(*v, key@) is None,
{
    v.get(key)
}

/// Relies on `serde_json::Value::as_str`: `Some` exactly when the document is
/// a JSON string, and then its characters.
#[verifier::external_body]
pub(crate) fn value_as_str(v: &serde_json::Value) -> (r: Option<String>)
    ensures
        r matches Some(s) ==> doc_as_str(*v) == Some(s@),
        r is None ==> doc_as_str(*v) is None,
{
    v.as_str().map(String::from)
}

} // verus!
