//! The HTTP header types that an IPC message carries, with the few calls
//! into them that command dispatch makes.

use http::header::ToStrError;
use http::{HeaderMap, HeaderValue};
use vstd::prelude::*;

verus! {

#[verifier::external_type_specification]
#[verifier::external_body]
#[verifier::reject_recursive_types(T)]
pub struct ExHeaderMap<T>(HeaderMap<T>);

#[verifier::external_type_specification]
#[verifier::external_body]
pub struct ExHeaderValue(HeaderValue);

#[verifier::external_type_specification]
#[verifier::external_body]
pub struct ExToStrError(ToStrError);

/// What a header map holds: for each (lower-case) header name, its values
/// as raw bytes, in the order they were inserted.
pub uninterp spec fn header_map_entries(map: HeaderMap) -> Map<Seq<char>, Seq<Seq<u8>>>;

/// The raw bytes that a header value holds.
pub uninterp spec fn header_value_bytes(value: HeaderValue) -> Seq<u8>;

/// A byte that a header value may hold and still read as text:
/// a visible ASCII character or a horizontal tab.
pub open spec fn is_visible_ascii(b: u8) -> bool {
    (32 <= b && b < 127) || b == 9
}

/// The text that `bytes` reads as, if every byte is visible ASCII.
pub open spec fn header_text(bytes: Seq<u8>) -> Option<Seq<char>> {
    if forall|i: int| 0 <= i < bytes.len() ==> is_visible_ascii(#[trigger] bytes[i]) {
        Some(bytes.map_values(|b: u8| b as char))
    } else {
        None
    }
}

/// A header name written in its normal form: non-empty, made of lower-case
/// letters, digits and hyphens.
pub open spec fn is_normal_header_name(name: Seq<char>) -> bool {
    &&& name.len() > 0
    &&& forall|i: int|
        0 <= i < name.len() ==> {
            let c = #[trigger] name[i];
            ('a' <= c && c <= 'z') || ('0' <= c && c <= '9') || c == '-'
        }
}

/// The first value stored under `name`, if there is one.
pub open spec fn first_value(entries: Map<Seq<char>, Seq<Seq<u8>>>, name: Seq<char>) -> Option<Seq<u8>> {
    if entries.contains_key(name) && entries[name].len() > 0 {
        Some(entries[name][0])
    } else {
        None
    }
}

/// `HeaderMap::get` with a name given as text: the first value stored under
/// that name. The crate parses the text as a header name and looks it up;
/// a name already in normal form is looked up as it is.
#[verifier::external_body]
pub(crate) fn header_map_get<'a>(map: &'a HeaderMap, name: &str) -> (r: Option<&'a HeaderValue>)
    requires
        is_normal_header_name(name@),
    ensures
        r is Some <==> first_value(header_map_entries(*map), name@) is Some,
        r matches Some(v) ==> Some(header_value_bytes(*v)) == first_value(
            header_map_entries(*map),
            name@,
        ),
{
    map.get(name)
}

/// `HeaderValue::to_str`: succeeds exactly when every byte is visible ASCII
/// (or a tab), and then gives those bytes as text, one character per byte.
#[verifier::external_body]
pub(crate) fn header_value_to_str<'a>(value: &'a HeaderValue) -> (r: Result<&'a str, ToStrError>)
    ensures
        r is Ok <==> header_text(header_value_bytes(*value)) is Some,
        r matches Ok(s) ==> Some(s@) == header_text(header_value_bytes(*value)),
{
    value.to_str()
}

/// The `Display` text of `ToStrError`, which the crate writes as one fixed
/// sentence.
#[verifier::external_body]
pub(crate) fn to_str_error_text(e: &ToStrError) -> (r: String)
    ensures
        r@ == "failed to convert header to a str"@,
{
    format!("{e}")
}

} // verus!
