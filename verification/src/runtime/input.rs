//! Checks on the JSON texts that a caller hands to a session: the call
//! arguments must be an array, the initial storage an object.

use crate::error::DebuggerError;
use vstd::prelude::*;
use vstd::string::*;

verus! {

/// What a text is when read as one JSON document.
#[derive(Debug, Clone, Copy, PartialEq, Eq, Structural)]
pub enum JsonShape {
    /// Not a JSON document.
    Malformed,
    Null,
    Boolean,
    Number,
    Text,
    Array,
    Object,
}

/// The shape of `text` read as one JSON document by `serde_json`.
pub uninterp spec fn json_shape_of(text: Seq<char>) -> JsonShape;

/// `serde_json::from_str` at the type `serde_json::Value`, reduced to the
/// variant that came back. The parser reads nothing but `text`, so one text
/// always has one shape; a text it rejects is `Malformed`.
#[verifier::external_body]
fn json_shape(text: &str) -> (r: JsonShape)
    ensures
        r == json_shape_of(text@),
{
    match serde_json::from_str::<serde_json::Value>(text) {
        Err(_) => JsonShape::Malformed,
        Ok(serde_json::Value::Null) => JsonShape::Null,
        Ok(serde_json::Value::Bool(_)) => JsonShape::Boolean,
        Ok(serde_json::Value::Number(_)) => JsonShape::Number,
        Ok(serde_json::Value::String(_)) => JsonShape::Text,
        Ok(serde_json::Value::Array(_)) => JsonShape::Array,
        Ok(serde_json::Value::Object(_)) => JsonShape::Object,
    }
}

/// `text` can serve as the arguments of a call: it is a JSON array.
pub open spec fn spec_is_call_args(text: Seq<char>) -> bool {
    json_shape_of(text) == JsonShape::Array
}

/// `text` can serve as initial storage: it is a JSON object.
pub open spec fn spec_is_storage_seed(text: Seq<char>) -> bool {
    json_shape_of(text) == JsonShape::Object
}

/// Whether a document of this shape can serve as the arguments of a call.
pub fn accepts_as_call_args(shape: JsonShape) -> (r: bool)
    ensures
        r == (shape == JsonShape::Array),
{
    shape == JsonShape::Array
}

/// Whether a document of this shape can serve as initial storage.
pub fn accepts_as_storage_seed(shape: JsonShape) -> (r: bool)
    ensures
        r == (shape == JsonShape::Object),
{
    shape == JsonShape::Object
}

/// Accepts `text` as call arguments where it is a JSON array, and rejects
/// it with `ArgsParse`, carrying the text, where it is anything else.
pub fn check_call_args(text: &str) -> (r: Result<(), DebuggerError>)
    ensures
        spec_is_call_args(text@) ==> r is Ok,
        !spec_is_call_args(text@) ==> (r matches Err(DebuggerError::ArgsParse(t)) && t@
            == text@),
{
    if accepts_as_call_args(json_shape(text)) {
        Ok(())
    } else {
        Err(DebuggerError::ArgsParse(text.to_owned()))
    }
}

/// Accepts `text` as initial storage where it is a JSON object, and rejects
/// it with `StorageParse`, carrying the text, where it is anything else.
pub fn check_initial_storage(text: &str) -> (r: Result<(), DebuggerError>)
    ensures
        spec_is_storage_seed(text@) ==> r is Ok,
        !spec_is_storage_seed(text@) ==> (r matches Err(DebuggerError::StorageParse(t)) && t@
            == text@),
{
    if accepts_as_storage_seed(json_shape(text)) {
        Ok(())
    } else {
        Err(DebuggerError::StorageParse(text.to_owned()))
    }
}

} // verus!
