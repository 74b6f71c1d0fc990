//! JSON values as the mock responses carry them.
//!
//! A `serde_json::Value` is opaque here: the library stores it, copies it and
//! turns it into text, and never looks inside.

use vstd::prelude::*;

verus! {

/// `serde_json::Value`, declared so that it can stand in fields and
/// signatures. Nothing inside a value is seen.
#[verifier::external_type_specification]
#[verifier::external_body]
pub struct ExValue(serde_json::Value);

/// The compact JSON text of a value: what `serde_json` writes for it with no
/// whitespace between tokens.
pub uninterp spec fn json_text(value: serde_json::Value) -> Seq<char>;

/// `Clone` of `serde_json::Value` is derived: the copy is the same value.
pub assume_specification[ <serde_json::Value as Clone>::clone ](
    value: &serde_json::Value,
) -> (copy: serde_json::Value)
    ensures
        copy == *value,
;

/// `Display` of `serde_json::Value` through `to_string`: the compact
/// serialization. Nothing is proved of it; its result is known only by the
/// name `json_text`.
#[verifier::external_body]
pub(crate) fn compact_text(value: &serde_json::Value) -> (text: String)
    ensures
        text@ == json_text(*value),
{
    value.to_string()
}

/// The variant `serde_json::Value::String` around an empty `String`: the
/// JSON string without characters, which is written as two double quotes.
#[verifier::external_body]
pub(crate) fn empty_string() -> (value: serde_json::Value)
    ensures
        json_text(value) == "\"\""@,
{
    serde_json::Value::String(String::new())
}

} // verus!
