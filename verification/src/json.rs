//! Trusted access to `serde_json` documents.
//!
//! A `serde_json::Value` is opaque to Verus; what the protocol logic reads of
//! it goes through the wrappers below, whose results are named by the
//! uninterpreted functions of this module.
use vstd::prelude::*;

verus! {

#[verifier::external_type_specification]
#[verifier::external_body]
pub struct ExJsonValue(serde_json::Value);

/// What `serde_json::from_str::<Value>` makes of a text: the document, or
/// the text of the error it reports when the text is not valid JSON.
pub uninterp spec fn spec_json_parse(text: Seq<char>) -> Result<serde_json::Value, Seq<char>>;

/// What `serde_json::Value::get` returns for a string key: the member of an
/// object under that key, `None` for a missing key or a non-object value.
pub uninterp spec fn spec_json_get(value: serde_json::Value, key: Seq<char>) -> Option<serde_json::Value>;

/// What `serde_json::Value::as_str` returns: the text of a JSON string.
pub uninterp spec fn spec_json_as_str(value: serde_json::Value) -> Option<Seq<char>>;

/// What `serde_json::Value::as_u64` returns: an integer that fits in `u64`.
pub uninterp spec fn spec_json_as_u64(value: serde_json::Value) -> Option<u64>;

/// What `serde_json::Value::as_bool` returns: the value of a JSON boolean.
pub uninterp spec fn spec_json_as_bool(value: serde_json::Value) -> Option<bool>;

/// What `serde_json::Value::as_array` returns: the items of a JSON array.
pub uninterp spec fn spec_json_as_array(value: serde_json::Value) -> Option<Seq<serde_json::Value>>;

/// What `serde_json::Value::is_object` returns.
pub uninterp spec fn spec_json_is_object(value: serde_json::Value) -> bool;

/// What `serde_json::Value::is_null` returns.
pub uninterp spec fn spec_json_is_null(value: serde_json::Value) -> bool;

/// The value has no member outside `names`.
pub open spec fn spec_has_only(v: serde_json::Value, names: Set<Seq<char>>) -> bool {
    forall|k: Seq<char>| !names.contains(k) ==> #[trigger] spec_json_get(v, k) is None
}

/// Calls `serde_json::from_str::<Value>`; claims only that the outcome (the
/// document, or the error's message) is the function of the text named by
/// `spec_json_parse`.
#[verifier::external_body]
pub(crate) fn json_parse(text: &str) -> (res: Result<serde_json::Value, String>)
    ensures
        match res {
            Ok(v) => spec_json_parse(text@) == Ok::<serde_json::Value, Seq<char>>(v),
            Err(msg) => spec_json_parse(text@) == Err::<serde_json::Value, Seq<char>>(msg@),
        },
{
    match serde_json::from_str::<serde_json::Value>(text) {
        Ok(v) => Ok(v),
        Err(e) => Err(e.to_string()),
    }
}

/// Calls `serde_json::Value::get` with a string key and clones the member.
#[verifier::external_body]
pub(crate) fn json_get(value: &serde_json::Value, key: &str) -> (res: Option<serde_json::Value>)
    ensures
        res == spec_json_get(*value, key@),
{
    value.get(key).cloned()
}

/// Calls `serde_json::Value::as_str` and copies the text out.
#[verifier::external_body]
pub(crate) fn json_as_str(value: &serde_json::Value) -> (res: Option<String>)
    ensures
        res.deep_view() == spec_json_as_str(*value),
{
    value.as_str().map(|s| s.to_owned())
}

/// Calls `serde_json::Value::as_u64`.
#[verifier::external_body]
pub(crate) fn json_as_u64(value: &serde_json::Value) -> (res: Option<u64>)
    ensures
        res == spec_json_as_u64(*value),
{
    value.as_u64()
}

/// Calls `serde_json::Value::as_bool`.
#[verifier::external_body]
pub(crate) fn json_as_bool(value: &serde_json::Value) -> (res: Option<bool>)
    ensures
        res == spec_json_as_bool(*value),
{
    value.as_bool()
}

/// Calls `serde_json::Value::as_array` and clones the items.
#[verifier::external_body]
pub(crate) fn json_as_array(value: &serde_json::Value) -> (res: Option<Vec<serde_json::Value>>)
    ensures
        match res {
            Some(items) => spec_json_as_array(*value) == Some(items@),
            None => spec_json_as_array(*value) is None,
        },
{
    value.as_array().cloned()
}

/// Calls `serde_json::Value::is_object`.
#[verifier::external_body]
pub(crate) fn json_is_object(value: &serde_json::Value) -> (res: bool)
    ensures
        res == spec_json_is_object(*value),
{
    value.is_object()
}

/// Builds `serde_json::Value::Null`; per `serde_json`'s documentation,
/// `is_null` holds of it, and it is neither a string, an integer, a boolean
/// nor an object.
#[verifier::external_body]
pub(crate) fn json_null() -> (res: serde_json::Value)
    ensures
        spec_json_is_null(res),
        spec_json_as_str(res) is None,
        spec_json_as_u64(res) is None,
        spec_json_as_bool(res) is None,
        spec_json_as_array(res) is None,
        !spec_json_is_object(res),
        forall|key: Seq<char>| #[trigger] spec_json_get(res, key) is None,
{
    serde_json::Value::Null
}

/// What `serde_json::from_slice::<Value>` makes of bytes: the document, or
/// the text of the error it reports.
pub uninterp spec fn spec_json_parse_bytes(bytes: Seq<u8>) -> Result<serde_json::Value, Seq<char>>;

/// Calls `serde_json::from_slice::<Value>`; claims only that the outcome is
/// the function of the bytes named by `spec_json_parse_bytes`.
#[verifier::external_body]
pub(crate) fn json_parse_bytes(bytes: &[u8]) -> (res: Result<serde_json::Value, String>)
    ensures
        match res {
            Ok(v) => spec_json_parse_bytes(bytes@) == Ok::<serde_json::Value, Seq<char>>(v),
            Err(msg) => spec_json_parse_bytes(bytes@) == Err::<serde_json::Value, Seq<char>>(msg@),
        },
{
    match serde_json::from_slice::<serde_json::Value>(bytes) {
        Ok(v) => Ok(v),
        Err(e) => Err(e.to_string()),
    }
}

/// The bytes `serde_json::to_vec` writes for a value.
pub uninterp spec fn spec_json_bytes(value: serde_json::Value) -> Seq<u8>;

/// The value is an object whose every member is a string or an unsigned
/// integer: no floats, no nesting.
pub open spec fn spec_json_plain_object(v: serde_json::Value) -> bool {
    &&& spec_json_is_object(v)
    &&& forall|k: Seq<char>| #[trigger] spec_json_get(v, k) matches Some(m)
        ==> (spec_json_as_str(m) is Some || spec_json_as_u64(m) is Some)
}

/// `serde_json::from_slice` reads the bytes back as the value.
pub open spec fn spec_json_reads_back(bytes: Seq<u8>, v: serde_json::Value) -> bool {
    spec_json_parse_bytes(bytes) == Ok::<serde_json::Value, Seq<char>>(v)
}

/// Calls `serde_json::to_vec`, which cannot fail on a `Value`. For an object
/// of string and unsigned-integer members, `serde_json::from_slice` reads the
/// written bytes back as that object: strings are escaped and unescaped, `u64`
/// numbers are written in decimal and read back as `u64`, and each member is
/// written once.
#[verifier::external_body]
pub(crate) fn json_to_vec(value: &serde_json::Value) -> (res: Vec<u8>)
    ensures
        res@ == spec_json_bytes(*value),
        spec_json_plain_object(*value) ==> spec_json_reads_back(res@, *value),
{
    serde_json::to_vec(value).unwrap_or_default()
}

// ---------------------------------------------------------------------------
// Building documents
// ---------------------------------------------------------------------------

/// The text `serde_json` writes for a JSON number (`None` for any other value).
pub uninterp spec fn spec_json_number_text(value: serde_json::Value) -> Option<Seq<char>>;

/// Calls `serde_json::Value::is_number` and, for a number, writes it with `to_string`.
#[verifier::external_body]
pub(crate) fn json_number_text(value: &serde_json::Value) -> (res: Option<String>)
    ensures
        res.deep_view() == spec_json_number_text(*value),
{
    if value.is_number() {
        Some(value.to_string())
    } else {
        None
    }
}

/// Calls `serde_json::Value::is_null`.
#[verifier::external_body]
pub(crate) fn json_is_null(value: &serde_json::Value) -> (res: bool)
    ensures
        res == spec_json_is_null(*value),
{
    value.is_null()
}

/// Builds a JSON string (`Value::String`); per `serde_json`'s documentation
/// `as_str` reads the text back and it is no other kind of value.
#[verifier::external_body]
pub(crate) fn json_string(text: &str) -> (res: serde_json::Value)
    ensures
        spec_json_as_str(res) == Some(text@),
        spec_json_as_u64(res) is None,
        spec_json_as_bool(res) is None,
        spec_json_as_array(res) is None,
        !spec_json_is_object(res),
        !spec_json_is_null(res),
{
    serde_json::Value::String(text.to_owned())
}

/// Builds a JSON number from a `u64` (`Value::from`); `as_u64` reads it back.
#[verifier::external_body]
pub(crate) fn json_u64(n: u64) -> (res: serde_json::Value)
    ensures
        spec_json_as_u64(res) == Some(n),
        spec_json_as_str(res) is None,
        spec_json_as_bool(res) is None,
        spec_json_as_array(res) is None,
        !spec_json_is_object(res),
        !spec_json_is_null(res),
{
    serde_json::Value::from(n)
}

/// Builds a JSON boolean (`Value::Bool`); `as_bool` reads it back.
#[verifier::external_body]
pub(crate) fn json_bool(b: bool) -> (res: serde_json::Value)
    ensures
        spec_json_as_bool(res) == Some(b),
        spec_json_as_str(res) is None,
        spec_json_as_u64(res) is None,
        spec_json_as_array(res) is None,
        !spec_json_is_object(res),
        !spec_json_is_null(res),
{
    serde_json::Value::Bool(b)
}

/// Builds a JSON array of the items (`Value::Array`); `as_array` reads them back.
#[verifier::external_body]
pub(crate) fn json_array(items: Vec<serde_json::Value>) -> (res: serde_json::Value)
    ensures
        spec_json_as_array(res) == Some(items@),
        spec_json_as_str(res) is None,
        spec_json_as_u64(res) is None,
        spec_json_as_bool(res) is None,
        !spec_json_is_object(res),
        !spec_json_is_null(res),
{
    serde_json::Value::Array(items)
}

/// Builds an empty JSON object (`Value::Object` of a new `Map`).
#[verifier::external_body]
pub(crate) fn json_object() -> (res: serde_json::Value)
    ensures
        spec_json_is_object(res),
        !spec_json_is_null(res),
        spec_json_as_array(res) is None,
        spec_json_as_str(res) is None,
        spec_json_as_u64(res) is None,
        spec_json_as_bool(res) is None,
        forall|key: Seq<char>| #[trigger] spec_json_get(res, key) is None,
{
    serde_json::Value::Object(serde_json::Map::new())
}

/// Sets a member of a JSON object (`Map::insert` on `as_object_mut`): the
/// key now holds the value, every other member is unchanged.
#[verifier::external_body]
pub(crate) fn json_insert(object: &mut serde_json::Value, key: &str, value: serde_json::Value)
    requires
        spec_json_is_object(*old(object)),
    ensures
        spec_json_is_object(*final(object)),
        !spec_json_is_null(*final(object)),
        spec_json_as_array(*final(object)) is None,
        spec_json_as_str(*final(object)) is None,
        spec_json_as_u64(*final(object)) is None,
        spec_json_as_bool(*final(object)) is None,
        spec_json_get(*final(object), key@) == Some(value),
        forall|other: Seq<char>| other != key@ ==> #[trigger] spec_json_get(*final(object), other)
            == spec_json_get(*old(object), other),
{
    if let Some(map) = object.as_object_mut() {
        map.insert(key.to_owned(), value);
    }
}


// ---------------------------------------------------------------------------
// Records: how a derived `Deserialize` reads a struct out of a JSON value.
// An object is read by field name (unknown members are ignored); an array is
// read by position and may not hold more items than the struct has fields.
// ---------------------------------------------------------------------------

/// The member standing for field `index` named `key` of a record.
pub open spec fn spec_record_member(value: serde_json::Value, index: nat, key: Seq<char>) -> Option<serde_json::Value> {
    match spec_json_as_array(value) {
        Some(items) => if index < items.len() {
            Some(items[index as int])
        } else {
            None
        },
        None => spec_json_get(value, key),
    }
}

/// The value has the shape of a record with `nfields` fields.
pub open spec fn spec_record_shape(value: serde_json::Value, nfields: nat) -> bool {
    match spec_json_as_array(value) {
        Some(items) => items.len() <= nfields,
        None => spec_json_is_object(value),
    }
}

/// Reads the member standing for a record field.
pub(crate) fn record_member(value: &serde_json::Value, index: usize, key: &str) -> (res: Option<serde_json::Value>)
    ensures
        res == spec_record_member(*value, index as nat, key@),
{
    match json_as_array(value) {
        Some(items) => {
            if index < items.len() {
                Some(items[index].clone())
            } else {
                None
            }
        },
        None => json_get(value, key),
    }
}

/// Whether the value has the shape of a record with `nfields` fields.
pub fn record_shape(value: &serde_json::Value, nfields: usize) -> (res: bool)
    ensures
        res == spec_record_shape(*value, nfields as nat),
{
    match json_as_array(value) {
        Some(items) => items.len() <= nfields,
        None => json_is_object(value),
    }
}

/// A JSON string member's text, read through `as_str`.
pub open spec fn spec_opt_str(value: Option<serde_json::Value>) -> Option<Seq<char>> {
    match value {
        Some(v) => spec_json_as_str(v),
        None => None,
    }
}

/// A JSON integer member, read through `as_u64`.
pub open spec fn spec_opt_u64(value: Option<serde_json::Value>) -> Option<u64> {
    match value {
        Some(v) => spec_json_as_u64(v),
        None => None,
    }
}

/// Reads an optional member as text.
pub fn opt_str(value: &Option<serde_json::Value>) -> (res: Option<String>)
    ensures
        res.deep_view() == spec_opt_str(*value),
{
    match value {
        Some(v) => json_as_str(v),
        None => None,
    }
}

/// Reads an optional member as an unsigned integer.
pub fn opt_u64(value: &Option<serde_json::Value>) -> (res: Option<u64>)
    ensures
        res == spec_opt_u64(*value),
{
    match value {
        Some(v) => json_as_u64(v),
        None => None,
    }
}

/// The member standing for an `Option` field of a record: `Some(None)` when
/// it is null or (in object form, or when `defaulted`) absent; `None` when
/// the array form lacks a field that has no default.
pub open spec fn spec_record_optional(value: serde_json::Value, index: nat, key: Seq<char>, defaulted: bool) -> Option<Option<serde_json::Value>> {
    let member = spec_record_member(value, index, key);
    match member {
        Some(v) => if spec_json_is_null(v) {
            Some(None)
        } else {
            Some(Some(v))
        },
        None => if spec_json_as_array(value) is Some && !defaulted {
            None
        } else {
            Some(None)
        },
    }
}

/// Reads the member standing for an `Option` field of a record.
pub fn record_optional(value: &serde_json::Value, index: usize, key: &str, defaulted: bool) -> (res: Option<Option<serde_json::Value>>)
    ensures
        res == spec_record_optional(*value, index as nat, key@, defaulted),
{
    match record_member(value, index, key) {
        Some(v) => {
            if json_is_null(&v) {
                Some(None)
            } else {
                Some(Some(v))
            }
        },
        None => {
            if json_as_array(value).is_some() && !defaulted {
                None
            } else {
                Some(None)
            }
        },
    }
}

/// An optional text field: `Some(None)` when absent or null, `None` when it
/// is present but not a string (or missing from the array form).
pub open spec fn spec_optional_text(member: Option<Option<serde_json::Value>>) -> Option<Option<Seq<char>>> {
    match member {
        None => None,
        Some(None) => Some(None),
        Some(Some(v)) => match spec_json_as_str(v) {
            Some(t) => Some(Some(t)),
            None => None,
        },
    }
}

/// An optional boolean field, read as `spec_optional_text` reads text.
pub open spec fn spec_optional_bool(member: Option<Option<serde_json::Value>>) -> Option<Option<bool>> {
    match member {
        None => None,
        Some(None) => Some(None),
        Some(Some(v)) => match spec_json_as_bool(v) {
            Some(b) => Some(Some(b)),
            None => None,
        },
    }
}

/// Reads an optional text field.
pub fn optional_text(member: &Option<Option<serde_json::Value>>) -> (res: Option<Option<String>>)
    ensures
        match spec_optional_text(*member) {
            None => res is None,
            Some(None) => res matches Some(None),
            Some(Some(t)) => res matches Some(Some(s)) && s@ == t,
        },
{
    match member {
        None => None,
        Some(None) => Some(None),
        Some(Some(v)) => match json_as_str(v) {
            Some(t) => Some(Some(t)),
            None => None,
        },
    }
}

/// Reads an optional boolean field.
pub fn optional_bool(member: &Option<Option<serde_json::Value>>) -> (res: Option<Option<bool>>)
    ensures
        res == spec_optional_bool(*member),
{
    match member {
        None => None,
        Some(None) => Some(None),
        Some(Some(v)) => match json_as_bool(v) {
            Some(b) => Some(Some(b)),
            None => None,
        },
    }
}


/// `Clone` for `serde_json::Value` copies the whole tree; the copy is the same value.
pub assume_specification[ <serde_json::Value as Clone>::clone ](value: &serde_json::Value) -> (res: serde_json::Value)
    ensures
        res == *value,
;

/// `Clone` for `Duration` (a `Copy` type) returns the same duration.
pub assume_specification[ <core::time::Duration as Clone>::clone ](d: &core::time::Duration) -> (res: core::time::Duration)
    ensures
        res == *d,
;

} // verus!
