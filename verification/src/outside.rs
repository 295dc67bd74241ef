//! The calls into other crates and into parts of the standard library that
//! have no specification. What each contract here says is not proved: it is
//! taken from the documentation and the source of what is called.
use crate::json::Json;
use crate::json::JsonView;
use crate::json::Number;
use crate::model::option_view;
use vstd::prelude::*;
use vstd::utf8::*;

verus! {

/// A document as `serde_json` holds it. Only the conversions below look inside.
#[verifier::external_type_specification]
#[verifier::external_body]
pub struct ExValue(serde_json::Value);

/// The compact text that `serde_json` writes for a document.
pub uninterp spec fn compact_text(json: JsonView) -> Seq<char>;

/// The document that `serde_json` reads from `bytes`, if they hold one.
pub uninterp spec fn parsed_json(bytes: Seq<u8>) -> Option<JsonView>;

/// The text that the standard library makes of `bytes` when it replaces what
/// is not valid UTF-8.
pub uninterp spec fn lossy_text(bytes: Seq<u8>) -> Seq<char>;

/// Convert a document to `serde_json::Value`, node by node, with the
/// conversions that the crate offers for each kind of node. A number that is held
/// as its text becomes the nearest number that the crate can hold, by the standard
/// library's `str::parse`, so that the number which the text was written for comes
/// back. Nothing is claimed of the result, which is opaque here.
#[verifier::external_body]
fn value_of(json: &Json) -> serde_json::Value {
    match json {
        Json::Null => serde_json::Value::Null,
        Json::Bool(b) => serde_json::Value::from(*b),
        Json::Number(Number::Unsigned(n)) => serde_json::Value::from(*n),
        Json::Number(Number::Negative(n)) => serde_json::Value::from(*n),
        Json::Number(Number::Decimal(s)) => serde_json::Value::from(
            s.parse().ok().and_then(serde_json::Number::from_f64),
        ),
        Json::Text(s) => serde_json::Value::from(s.as_str()),
        Json::Array(items) => items.iter().map(value_of).collect(),
        Json::Object(fields) => fields.iter().map(|(k, v)| (k.clone(), value_of(v))).collect(),
    }
}

/// Convert a `serde_json::Value` to a document, node by node: integers keep
/// their value, other numbers their text, objects their fields in the order in
/// which the crate walks them. Nothing is claimed of the result, since the
/// argument is opaque here.
#[verifier::external_body]
fn document_of(value: serde_json::Value) -> Json {
    match value {
        serde_json::Value::Null => Json::Null,
        serde_json::Value::Bool(b) => Json::Bool(b),
        serde_json::Value::Number(n) => Json::Number(match (n.as_u64(), n.as_i64()) {
            (Some(u), _) => Number::Unsigned(u),
            (None, Some(i)) => Number::Negative(i),
            (None, None) => Number::Decimal(n.to_string()),
        }),
        serde_json::Value::String(s) => Json::Text(s),
        serde_json::Value::Array(items) => Json::Array(items.into_iter().map(document_of).collect()),
        serde_json::Value::Object(fields) => Json::Object(
            fields.into_iter().map(|(k, v)| (k, document_of(v))).collect()),
    }
}

/// `serde_json::Value::to_string`: the compact text of a document. The text is
/// a function of the document alone.
#[verifier::external_body]
pub(crate) fn compact(json: &Json) -> (text: String)
    ensures
        text@ == compact_text(json@),
{
    value_of(json).to_string()
}

/// `serde_json::from_slice`: the document that `bytes` hold, or nothing where
/// the crate reports an error. The result is a function of the bytes alone.
#[verifier::external_body]
pub(crate) fn parse(bytes: &[u8]) -> (json: Option<Json>)
    ensures
        option_view(json) == parsed_json(bytes@),
{
    serde_json::from_slice(bytes).ok().map(document_of)
}

/// `String::from_utf8_lossy`: `bytes` as text. Valid UTF-8 is decoded; the
/// result for other bytes is only named.
#[verifier::external_body]
pub(crate) fn lossy(bytes: &[u8]) -> (text: String)
    ensures
        text@ == lossy_text(bytes@),
        valid_utf8(bytes@) ==> text@ == decode_utf8(bytes@),
{
    String::from_utf8_lossy(bytes).into_owned()
}

/// The document that `bytes` hold, if they hold one.
pub fn read_document(bytes: &[u8]) -> (json: Option<Json>)
    ensures
        option_view(json) == parsed_json(bytes@),
{
    parse(bytes)
}

/// The compact text of a document.
pub fn write_document(json: &Json) -> (text: String)
    ensures
        text@ == compact_text(json@),
{
    compact(json)
}

/// Whether `c` is a digit of lower-case hexadecimal.
pub open spec fn hex_digit(c: char) -> bool {
    '0' <= c <= '9' || 'a' <= c <= 'f'
}

/// Whether `id` is written as a version 4 UUID: five groups of lower-case
/// hexadecimal digits with hyphens between them, a 4 for the version and 8, 9,
/// a or b for the variant.
pub open spec fn is_uuid4(id: Seq<char>) -> bool {
    &&& id.len() == 36
    &&& forall|i: int|
        0 <= i < 36 ==> if i == 8 || i == 13 || i == 18 || i == 23 {
            #[trigger] id[i] == '-'
        } else {
            hex_digit(id[i])
        }
    &&& id[14] == '4'
    &&& id[19] == '8' || id[19] == '9' || id[19] == 'a' || id[19] == 'b'
}

/// `uuid::Uuid::new_v4`, in its hyphenated lower-case form. Which UUID comes is
/// random, so nothing more is said of it.
#[verifier::external_body]
pub(crate) fn fresh_id() -> (id: String)
    ensures
        is_uuid4(id@),
{
    uuid::Uuid::new_v4().to_string()
}

/// `std::time::SystemTime::elapsed`, of the Unix epoch: the seconds since then,
/// or nothing where the clock stands before it. Nothing can be said of a clock.
#[verifier::external_body]
pub(crate) fn since_epoch() -> (seconds: Option<u64>) {
    std::time::SystemTime::UNIX_EPOCH.elapsed().ok().map(|passed| passed.as_secs())
}

} // verus!
