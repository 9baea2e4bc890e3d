//! Response headers: lookups in an `http` header map and the text of a
//! header value.

use reqwest::header::{HeaderMap, HeaderValue};
use vstd::prelude::*;

verus! {

/// `HeaderMap` of the `http` crate, as `reqwest` hands it on: nothing is
/// known of what is inside but through the lookups below.
#[verifier::external_type_specification]
#[verifier::external_body]
#[verifier::reject_recursive_types(T)]
pub struct ExHeaderMap<T>(HeaderMap<T>);

/// `HeaderValue` of the `http` crate, as `reqwest` hands it on.
#[verifier::external_type_specification]
#[verifier::external_body]
pub struct ExHeaderValue(HeaderValue);

/// What a header map holds, as a lookup sees it: each name under which a
/// lookup finds a value, in whatever letter case it is asked for, with the
/// bytes of the first value stored under it.
pub uninterp spec fn header_values(headers: HeaderMap<HeaderValue>) -> Map<Seq<char>, Seq<u8>>;

/// The bytes that a header value holds.
pub uninterp spec fn header_value_bytes(value: HeaderValue) -> Seq<u8>;

/// Whether `b` is a byte that may stand in the text of a header value: a
/// printable ASCII character, a space or a tab.
pub open spec fn is_visible_ascii(b: u8) -> bool {
    (32 <= b && b < 127) || b == 9
}

/// Whether a header value is text: all of its bytes are visible ASCII.
pub open spec fn is_header_text(bytes: Seq<u8>) -> bool {
    forall|i: int| 0 <= i < bytes.len() ==> is_visible_ascii(#[trigger] bytes[i])
}

/// The characters that the bytes of a header text stand for, one per byte.
pub open spec fn header_text(bytes: Seq<u8>) -> Seq<char> {
    Seq::new(bytes.len(), |i: int| bytes[i] as char)
}

/// `HeaderMap::get` with a name given as text: the first value stored under
/// the name, or nothing where the map holds none under it (a text that is no
/// header name finds nothing).
#[verifier::external_body]
fn header_get<'a>(
    headers: &'a HeaderMap<HeaderValue>,
    name: &str,
) -> (value: Option<&'a HeaderValue>)
    ensures
        value is Some <==> header_values(*headers).contains_key(name@),
        value matches Some(v) ==> header_value_bytes(*v) == header_values(*headers)[name@],
{
    headers.get(name)
}

/// `HeaderValue::to_str`: the value as text where every byte of it is
/// visible ASCII, one character per byte; nothing otherwise.
#[verifier::external_body]
fn header_to_str(value: &HeaderValue) -> (text: Option<String>)
    ensures
        text is Some <==> is_header_text(header_value_bytes(*value)),
        text matches Some(s) ==> s@ == header_text(header_value_bytes(*value)),
{
    match value.to_str() {
        Ok(text) => Some(text.to_string()),
        Err(_) => None,
    }
}

/// The text stored under `name`: that of the first value under the name,
/// where there is one and it is text.
pub open spec fn header_string(
    headers: HeaderMap<HeaderValue>,
    name: Seq<char>,
) -> Option<Seq<char>> {
    if header_values(headers).contains_key(name) && is_header_text(header_values(headers)[name]) {
        Some(header_text(header_values(headers)[name]))
    } else {
        None
    }
}

/// Whether the map holds a value under `name`.
pub fn has_header(headers: &HeaderMap<HeaderValue>, name: &str) -> (present: bool)
    ensures
        present == header_values(*headers).contains_key(name@),
{
    header_get(headers, name).is_some()
}

/// The text of the first value stored under `name`; nothing where the map
/// holds no value under the name or the value is not text.
pub fn header_str(headers: &HeaderMap<HeaderValue>, name: &str) -> (text: Option<String>)
    ensures
        text is Some <==> header_string(*headers, name@) is Some,
        text matches Some(s) ==> header_string(*headers, name@) == Some(s@),
{
    match header_get(headers, name) {
        Some(value) => header_to_str(value),
        None => None,
    }
}

} // verus!
