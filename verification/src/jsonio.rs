//! Trusted boundary to the JSON library and to lossy UTF-8 decoding.
//!
//! JSON values travel through the bridge opaquely: the logic never looks
//! inside one, it only serializes parameter lists, parses response lines
//! and picks named fields out of a parsed document. What each outside call
//! returns is a function of its arguments alone, so each result gets a
//! name here, and the contracts downstream are stated — and verified —
//! over those names. Each item names the one outside function it relies
//! on.

use vstd::prelude::*;

verus! {

#[verifier::external_type_specification]
#[verifier::external_body]
pub struct ExValue(serde_json::Value);

#[verifier::external_type_specification]
#[verifier::external_body]
pub struct ExJsonError(serde_json::Error);

/// The characters that lossy UTF-8 decoding produces from these bytes.
/// Determined by the bytes alone: valid sequences decode, invalid ones
/// become replacement characters.
pub uninterp spec fn lossy_text(bytes: Seq<u8>) -> Seq<char>;

/// The one JSON document this text parses as, if it parses: the parser's
/// verdict and value are a function of the text alone.
pub uninterp spec fn parsed_doc(text: Seq<char>) -> Option<serde_json::Value>;

/// Whether this text parses as one JSON document.
pub open spec fn json_ok(text: Seq<char>) -> bool {
    parsed_doc(text) is Some
}

/// The compact JSON array text this parameter list serializes to: a
/// function of the values alone.
pub uninterp spec fn params_json(params: Seq<serde_json::Value>) -> Seq<u8>;

/// The compact JSON text this one value serializes to: a function of the
/// value alone.
pub uninterp spec fn value_text(v: serde_json::Value) -> Seq<char>;

/// The named field of this value: what looking the key up returns —
/// present exactly when the value is an object holding the key.
pub uninterp spec fn field_of(v: serde_json::Value, key: Seq<char>) -> Option<serde_json::Value>;

/// Whether this value is JSON `null`.
pub uninterp spec fn is_null_of(v: serde_json::Value) -> bool;

/// The unsigned integer this value reads as, if it is one.
pub uninterp spec fn u64_of(v: serde_json::Value) -> Option<u64>;

/// The element sequence of this value, if it is an array.
pub uninterp spec fn array_of(v: serde_json::Value) -> Option<Seq<serde_json::Value>>;

/// Relies on String::from_utf8_lossy: decodes the bytes, replacing invalid
/// UTF-8 sequences instead of rejecting them, as a function of the bytes
/// alone; no bytes decode to no characters.
#[verifier::external_body]
pub fn lossy_utf8(bytes: &Vec<u8>) -> (r: String)
    ensures
        r@ == lossy_text(bytes@),
        bytes@.len() == 0 ==> r@.len() == 0,
{
    String::from_utf8_lossy(bytes).into_owned()
}

/// Relies on serde_json::from_str::<Value>: deterministically parses the
/// text, returning the document exactly when the text parses (exceeding
/// the recursion limit is an error, never a panic); an empty text is no
/// document.
#[verifier::external_body]
pub fn parse_value(text: &str) -> (r: Result<serde_json::Value, serde_json::Error>)
    ensures
        r is Ok <==> json_ok(text@),
        r matches Ok(v) ==> parsed_doc(text@) == Some(v),
        text@.len() == 0 ==> r is Err,
{
    serde_json::from_str(text)
}

/// Relies on serde_json::to_vec: compact encoding of a parameter list as a
/// JSON array. It cannot fail — the in-memory writer never errors, object
/// keys of a Value are always strings, and non-finite numbers cannot occur
/// in a Value. The output opens with `[`, closes with `]`, and holds no
/// raw newline byte: the compact formatter emits no whitespace and escapes
/// every control byte inside string literals.
#[verifier::external_body]
pub fn params_to_bytes(params: &Vec<serde_json::Value>) -> (r: Vec<u8>)
    ensures
        r@ == params_json(params@),
        r@.len() >= 2,
        r@.first() == 91u8,
        r@.last() == 93u8,
        forall|i: int| 0 <= i < r@.len() ==> r@[i] != 10u8,
{
    serde_json::to_vec(params).expect("serializing a list of JSON values cannot fail")
}

/// Relies on serde_json::to_string::<Value>: compact encoding of one JSON
/// value, a function of the value alone. It cannot fail, for the same
/// reasons as the array encoder above.
#[verifier::external_body]
pub fn value_to_text(v: &serde_json::Value) -> (r: String)
    ensures
        r@ == value_text(*v),
{
    serde_json::to_string(v).expect("serializing a JSON value cannot fail")
}

/// Relies on serde_json::Value::get: looks a key up in a parsed document,
/// present only when the document is an object holding that key.
#[verifier::external_body]
pub fn get_field<'a>(v: &'a serde_json::Value, key: &str) -> (r: Option<&'a serde_json::Value>)
    ensures
        r matches Some(f) ==> field_of(*v, key@) == Some(*f),
        r is None ==> field_of(*v, key@) is None,
{
    v.get(key)
}

/// Relies on serde_json::Value::is_null.
pub assume_specification[ serde_json::Value::is_null ](v: &serde_json::Value) -> (r: bool)
    ensures
        r == is_null_of(*v),
;

/// Relies on serde_json::Value::as_u64.
pub assume_specification[ serde_json::Value::as_u64 ](v: &serde_json::Value) -> (r: Option<u64>)
    ensures
        r == u64_of(*v),
;

/// Relies on serde_json::Value::as_array.
pub assume_specification<'a>[ serde_json::Value::as_array ](v: &'a serde_json::Value) -> (r:
    Option<&'a Vec<serde_json::Value>>)
    ensures
        r matches Some(a) ==> array_of(*v) == Some(a@),
        r is None ==> array_of(*v) is None,
;

/// Relies on serde_json::Value's derived Clone: a deep copy, equal as a
/// value to the original.
pub assume_specification[ <serde_json::Value as Clone>::clone ](v: &serde_json::Value) -> (r:
    serde_json::Value)
    ensures
        r == *v,
;

} // verus!
