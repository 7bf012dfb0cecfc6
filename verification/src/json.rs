//! The JSON tree that the decoder works on, and the trusted boundary
//! around serde_json, which turns raw bytes into that tree and classifies
//! the failures of that step.

use vstd::prelude::*;

verus! {

/// A parsed JSON document. Numbers are kept only when they are unsigned
/// 64-bit integers, the one numeric shape the release records use; any
/// other number is remembered as [`Json::NumOther`] so that the decoder
/// can still tell "a number of the wrong kind" from "not a number at all".
/// Object members keep the order in which the parser hands them out, and
/// their keys are unique, but the decoder assumes neither.
pub enum Json {
    Null,
    Bool(bool),
    UInt(u64),
    NumOther,
    Str(String),
    Arr(Vec<Json>),
    Obj(Vec<(String, Json)>),
}

/// How a JSON decoding failure is classified, mirroring serde_json's four
/// categories: everything but `Data` is a structural failure (the text is
/// not well-formed JSON, or could not be read), while `Data` means the
/// text is well-formed JSON of the wrong shape.
#[derive(Clone, Copy, PartialEq, Eq, Structural, Debug)]
pub enum ErrorClass {
    Io,
    Syntax,
    Data,
    Eof,
}

#[verifier::external_type_specification]
#[verifier::external_body]
pub struct ExSerdeJsonError(serde_json::Error);

#[verifier::external_type_specification]
#[verifier::external_body]
pub struct ExSerdeJsonValue(serde_json::Value);

/// The tree that serde_json parses out of a byte buffer, carried over to
/// the library's own [`Json`] type, or `None` when the bytes are not a
/// well-formed JSON document. The parse is a function of the bytes alone.
pub uninterp spec fn json_doc_of(bytes: Seq<u8>) -> Option<Json>;

/// What serde_json::Error::classify returns for an error value.
pub uninterp spec fn error_class_of(e: serde_json::Error) -> ErrorClass;

/// What serde_json::Error::line returns for an error value: the 1-based
/// line of the input at which the failure was detected, or 0 when the
/// error has no position.
pub uninterp spec fn error_line_of(e: serde_json::Error) -> usize;

/// What serde_json::Error::column returns for an error value: the 1-based
/// byte column within that line, or 0 when the error has no position.
pub uninterp spec fn error_column_of(e: serde_json::Error) -> usize;

/// The display text of a serde_json error value.
pub uninterp spec fn error_text_of(e: serde_json::Error) -> Seq<char>;

/// Relies on serde_json::from_slice::<serde_json::Value>: the parse of a
/// byte buffer is a function of the bytes alone, and parsing into a
/// generic value can fail only structurally (I/O, syntax, or premature
/// end of input), never with a data error.
#[verifier::external_body]
pub(crate) fn parse_json(bytes: &[u8]) -> (r: Result<Json, serde_json::Error>)
    ensures
        (r matches Ok(j) ==> json_doc_of(bytes@) == Some(j)),
        (r is Err ==> json_doc_of(bytes@) is None),
        (r matches Err(e) ==> error_class_of(e) != ErrorClass::Data),
{
    serde_json::from_slice::<serde_json::Value>(bytes).map(json_from_value)
}

/// Relies on the shape of serde_json::Value alone: every variant is
/// carried over to the library's own tree, one arm per variant, moving
/// the payloads; array elements and object members are carried over one
/// by one, in the order the parser stored them.
#[verifier::external_body]
fn json_from_value(v: serde_json::Value) -> Json {
    match v {
        serde_json::Value::Null => Json::Null,
        serde_json::Value::Bool(b) => Json::Bool(b),
        serde_json::Value::Number(n) => match n.as_u64() {
            Some(u) => Json::UInt(u),
            None => Json::NumOther,
        },
        serde_json::Value::String(s) => Json::Str(s),
        serde_json::Value::Array(a) => Json::Arr(a.into_iter().map(json_from_value).collect()),
        serde_json::Value::Object(m) => Json::Obj(
            m.into_iter().map(|(k, w)| (k, json_from_value(w))).collect(),
        ),
    }
}

/// Relies on serde_json::Error::classify; each category is carried over
/// to the library's own [`ErrorClass`], one arm per variant.
#[verifier::external_body]
pub(crate) fn classify_error(e: &serde_json::Error) -> (c: ErrorClass)
    ensures
        c == error_class_of(*e),
{
    match e.classify() {
        serde_json::error::Category::Io => ErrorClass::Io,
        serde_json::error::Category::Syntax => ErrorClass::Syntax,
        serde_json::error::Category::Data => ErrorClass::Data,
        serde_json::error::Category::Eof => ErrorClass::Eof,
    }
}

pub assume_specification[ serde_json::Error::line ](e: &serde_json::Error) -> (r: usize)
    ensures
        r == error_line_of(*e),
;

pub assume_specification[ serde_json::Error::column ](e: &serde_json::Error) -> (r: usize)
    ensures
        r == error_column_of(*e),
;

/// Relies on serde_json::Error's Display implementation: the rendering of
/// an error value is a function of that value alone.
#[verifier::external_body]
pub(crate) fn error_message(e: &serde_json::Error) -> (r: String)
    ensures
        r@ == error_text_of(*e),
{
    format!("{}", e)
}

} // verus!
