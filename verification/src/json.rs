//! The boundary to `serde_json`: JSON documents are built, rendered, parsed
//! and read by that crate. Every item here is believed, not proved.

use vstd::prelude::*;
use vstd::utf8::*;

verus! {

/// `serde_json::Value`, carried through verified code as an opaque document.
#[verifier::external_type_specification]
#[verifier::external_body]
pub struct ExValue(serde_json::Value);

/// `serde_json::Error`, as returned by parsing and rendering.
#[verifier::external_type_specification]
#[verifier::external_body]
pub struct ExJsonError(serde_json::Error);

/// `std::string::FromUtf8Error`, as returned for bytes that are no UTF-8.
#[verifier::external_type_specification]
#[verifier::external_body]
pub struct ExFromUtf8Error(std::string::FromUtf8Error);

/// The members of a document: its key/value pairs if it is a JSON object,
/// and no pairs at all for any other kind of value.
pub uninterp spec fn members(doc: serde_json::Value) -> Map<Seq<char>, serde_json::Value>;

/// The boolean that a value is, if it is a JSON boolean.
pub uninterp spec fn bool_of(value: serde_json::Value) -> Option<bool>;

/// The number that a value is, if it is a JSON integer in the range of `u64`.
pub uninterp spec fn unsigned_of(value: serde_json::Value) -> Option<u64>;

/// The text that a value is, if it is a JSON string.
pub uninterp spec fn text_of(value: serde_json::Value) -> Option<Seq<char>>;

/// Whether a value is a JSON object.
pub uninterp spec fn holds_object(value: serde_json::Value) -> bool;

/// The document that a text parses to, if it is well-formed JSON.
pub uninterp spec fn parsed(text: Seq<char>) -> Option<serde_json::Value>;

/// The JSON text of a document, if it can be rendered.
pub uninterp spec fn rendered(doc: serde_json::Value) -> Option<Seq<char>>;

/// The map that a list of entries describes, later entries written over
/// earlier ones.
pub open spec fn entries_map(entries: Seq<(String, serde_json::Value)>) -> Map<
    Seq<char>,
    serde_json::Value,
>
    decreases entries.len(),
{
    if entries.len() == 0 {
        Map::empty()
    } else {
        entries_map(entries.drop_last()).insert(entries.last().0@, entries.last().1)
    }
}

/// No key occurs twice in a list of entries.
pub open spec fn distinct_keys(entries: Seq<(String, serde_json::Value)>) -> bool
    decreases entries.len(),
{
    entries.len() == 0 || (distinct_keys(entries.drop_last()) && !entries_map(
        entries.drop_last(),
    ).contains_key(entries.last().0@))
}

/// Calls `serde_json::Value::get` with a string key. Claims that the result
/// is the member stored under that key, and `None` where there is none
/// (which includes every value that is not an object).
#[verifier::external_body]
pub(crate) fn member<'a>(doc: &'a serde_json::Value, key: &str) -> (r: Option<
    &'a serde_json::Value,
>)
    ensures
        r.is_some() == members(*doc).contains_key(key@),
        r matches Some(v) ==> *v == members(*doc)[key@],
{
    doc.get(key)
}

/// Calls `serde_json::Value::as_bool`. Claims only that the result is a
/// function of the value, named `bool_of`.
#[verifier::external_body]
pub(crate) fn as_bool(value: &serde_json::Value) -> (r: Option<bool>)
    ensures
        r == bool_of(*value),
{
    value.as_bool()
}

/// Calls `serde_json::Value::as_u64`. Claims only that the result is a
/// function of the value, named `unsigned_of`.
#[verifier::external_body]
pub(crate) fn as_u64(value: &serde_json::Value) -> (r: Option<u64>)
    ensures
        r == unsigned_of(*value),
{
    value.as_u64()
}

/// Calls `serde_json::Value::as_str`. Claims only that the result is a
/// function of the value, named `text_of`.
#[verifier::external_body]
pub(crate) fn as_str<'a>(value: &'a serde_json::Value) -> (r: Option<&'a str>)
    ensures
        r.is_some() == text_of(*value).is_some(),
        r matches Some(s) ==> text_of(*value) == Some(s@),
{
    value.as_str()
}

/// Calls `serde_json::Value::is_object`. Claims only that the result is a
/// function of the value, named `holds_object`.
#[verifier::external_body]
pub(crate) fn is_object(value: &serde_json::Value) -> (r: bool)
    ensures
        r == holds_object(*value),
{
    value.is_object()
}

/// Calls `serde_json::Value::from` on a `bool`. Claims that the result
/// reads back as that boolean, and as nothing of another type.
#[verifier::external_body]
pub(crate) fn bool_value(b: bool) -> (r: serde_json::Value)
    ensures
        bool_of(r) == Some(b),
        unsigned_of(r) is None,
        text_of(r) is None,
        !holds_object(r),
{
    serde_json::Value::from(b)
}

/// Calls `serde_json::Value::from` on a `u64`. Claims that the result reads
/// back as that number, and as nothing of another type.
#[verifier::external_body]
pub(crate) fn unsigned_value(n: u64) -> (r: serde_json::Value)
    ensures
        unsigned_of(r) == Some(n),
        bool_of(r) is None,
        text_of(r) is None,
        !holds_object(r),
{
    serde_json::Value::from(n)
}

/// Calls `serde_json::Value::from` on a `&str`. Claims that the result reads
/// back as that text, and as nothing of another type.
#[verifier::external_body]
pub(crate) fn text_value(s: &str) -> (r: serde_json::Value)
    ensures
        text_of(r) == Some(s@),
        bool_of(r) is None,
        unsigned_of(r) is None,
        !holds_object(r),
{
    serde_json::Value::from(s)
}

/// Calls `serde_json::Value::from_iter` on key/value pairs, which collects
/// them into a JSON object. Claims, for entries whose keys are all
/// different, that the result is an object whose members are exactly those
/// entries, and that it reads as no boolean, number or string.
#[verifier::external_body]
pub(crate) fn object_value(entries: Vec<(String, serde_json::Value)>) -> (r: serde_json::Value)
    requires
        distinct_keys(entries@),
    ensures
        holds_object(r),
        members(r) == entries_map(entries@),
        bool_of(r) is None,
        unsigned_of(r) is None,
        text_of(r) is None,
{
    serde_json::Value::from_iter(entries)
}

/// Calls `serde_json::to_string` on a document. Claims only that success
/// and the text are a function of the document, named `rendered`.
#[verifier::external_body]
pub(crate) fn to_text(doc: &serde_json::Value) -> (r: Result<String, serde_json::Error>)
    ensures
        r.is_ok() == rendered(*doc).is_some(),
        r matches Ok(s) ==> rendered(*doc) == Some(s@),
{
    serde_json::to_string(doc)
}

/// Calls `serde_json::from_str` for a `serde_json::Value`. Claims only that
/// success and the document are a function of the text, named `parsed`.
#[verifier::external_body]
pub(crate) fn from_text(text: &str) -> (r: Result<serde_json::Value, serde_json::Error>)
    ensures
        r.is_ok() == parsed(text@).is_some(),
        r matches Ok(doc) ==> parsed(text@) == Some(doc),
{
    serde_json::from_str::<serde_json::Value>(text)
}

/// Calls `to_string` on a `serde_json::Error`: the message that the crate
/// words for it. Nothing is claimed of the text.
#[verifier::external_body]
pub(crate) fn error_text(e: &serde_json::Error) -> String {
    e.to_string()
}

/// Calls `String::from_utf8`. Claims what std documents: the bytes are
/// accepted exactly when they are valid UTF-8, and the string then holds
/// the text that they encode.
#[verifier::external_body]
pub(crate) fn text_from_bytes(bytes: Vec<u8>) -> (r: Result<String, std::string::FromUtf8Error>)
    ensures
        r.is_ok() == valid_utf8(bytes@),
        r matches Ok(s) ==> s@ == decode_utf8(bytes@),
{
    String::from_utf8(bytes)
}

/// Calls `to_string` on a `FromUtf8Error`: the message that std words for
/// it. Nothing is claimed of the text.
#[verifier::external_body]
pub(crate) fn utf8_error_text(e: &std::string::FromUtf8Error) -> String {
    e.to_string()
}

/// Appending an entry writes its value into the map under its key.
pub proof fn entries_map_push(
    entries: Seq<(String, serde_json::Value)>,
    key: String,
    value: serde_json::Value,
)
    ensures
        entries_map(entries.push((key, value))) == entries_map(entries).insert(key@, value),
        distinct_keys(entries.push((key, value))) == (distinct_keys(entries) && !entries_map(
            entries,
        ).contains_key(key@)),
{
    assert(entries.push((key, value)).drop_last() =~= entries);
}

/// Appends the entry `key: value` to a list of entries.
pub fn put(entries: &mut Vec<(String, serde_json::Value)>, key: &str, value: serde_json::Value)
    requires
        distinct_keys(old(entries)@),
        !entries_map(old(entries)@).contains_key(key@),
    ensures
        distinct_keys(final(entries)@),
        entries_map(final(entries)@) == entries_map(old(entries)@).insert(key@, value),
        final(entries)@.len() == old(entries)@.len() + 1,
{
    let owned = String::from_str(key);
    proof {
        entries_map_push(entries@, owned, value);
    }
    entries.push((owned, value));
}

} // verus!
