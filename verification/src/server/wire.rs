//! The header and extension types that requests and responses carry.

use vstd::prelude::*;
use vstd::string::*;

verus! {

#[verifier::external_type_specification]
#[verifier::external_body]
#[verifier::reject_recursive_types(T)]
pub struct ExHeaderMap<T>(http::HeaderMap<T>);

#[verifier::external_type_specification]
#[verifier::external_body]
pub struct ExHeaderName(http::HeaderName);

#[verifier::external_type_specification]
#[verifier::external_body]
pub struct ExHeaderValue(http::HeaderValue);

#[verifier::external_type_specification]
#[verifier::external_body]
pub struct ExInvalidHeaderName(http::header::InvalidHeaderName);

#[verifier::external_type_specification]
#[verifier::external_body]
pub struct ExInvalidHeaderValue(http::header::InvalidHeaderValue);

#[verifier::external_type_specification]
#[verifier::external_body]
pub struct ExExtensions(http::Extensions);

/// What a header map holds: under each name, in lower case, the values of
/// that name, first added first.
pub uninterp spec fn header_fields(map: http::HeaderMap<http::HeaderValue>) -> Map<Seq<char>, Seq<Seq<u8>>>;

/// How many values a header map holds, over all names.
pub uninterp spec fn header_count(map: http::HeaderMap<http::HeaderValue>) -> nat;

/// The text of a header name, in lower case.
pub uninterp spec fn header_name_text(name: http::HeaderName) -> Seq<char>;

/// The bytes of a header value.
pub uninterp spec fn header_value_bytes(value: http::HeaderValue) -> Seq<u8>;

/// A byte that may stand in a header name: a letter, a digit, or one of
/// ``!#$%&'*+-.^_`|~``.
pub open spec fn header_name_byte(b: u8) -> bool {
    b == 33 || 35 <= b <= 39 || b == 42 || b == 43 || b == 45 || b == 46 || 48 <= b <= 57 || 65
        <= b <= 90 || 94 <= b <= 122 || b == 124 || b == 126
}

/// The character of a byte of a header name, a capital letter as its
/// small one.
pub open spec fn header_name_char(b: u8) -> char {
    if 65 <= b <= 90 {
        (b + 32) as char
    } else {
        b as char
    }
}

/// The longest header name, in bytes.
pub const MAX_HEADER_NAME_LEN: usize = 65535;

/// The header name that `src` spells, in lower case; `None` where `src` is
/// no header name: where it is empty or too long, or holds a byte that
/// may not stand in a header name.
pub open spec fn parsed_header_name(src: Seq<u8>) -> Option<Seq<char>> {
    if 1 <= src.len() <= MAX_HEADER_NAME_LEN && (forall|i: int|
        0 <= i < src.len() ==> header_name_byte(#[trigger] src[i])) {
        Some(src.map_values(|b: u8| header_name_char(b)))
    } else {
        None
    }
}

/// The extensions of `base` and those of `added` together; where both hold
/// one of the same type, that of `added`.
pub uninterp spec fn merged_extensions(base: http::Extensions, added: http::Extensions) -> http::Extensions;

/// How many extensions are held.
pub uninterp spec fn extension_count(extensions: http::Extensions) -> nat;

/// The most header values that a response can come to carry by adding to
/// those it has.
///
/// A header map gives up where it has to grow beyond 32768 slots. It
/// grows where its entries fill its slots to three quarters, and also
/// where it sees long runs of collisions while its entries, taken five
/// times, reach the number of its slots: with all 32768 slots in use that
/// is at 6554 entries. A map of no more values than this limit is below
/// either mark whatever its names are, so that writing to it cannot fail.
pub const MAX_HEADER_LINES: usize = 6553;

/// A byte that may stand in a header value: visible, a space or a tab, or
/// beyond ASCII.
pub open spec fn header_value_byte(b: u8) -> bool {
    b >= 32 && b != 127 || b == 9
}

/// A character that may stand in a header value given as static text.
pub open spec fn visible_ascii(c: char) -> bool {
    32 <= c as u32 && (c as u32) < 127 || c as u32 == 9
}

/// `HeaderMap::new`: a map that holds nothing.
#[verifier::external_body]
pub(crate) fn headers_new() -> (map: http::HeaderMap<http::HeaderValue>)
    ensures
        header_fields(map) == (Map::<Seq<char>, Seq<Seq<u8>>>::empty()),
        header_count(map) == 0,
{
    http::HeaderMap::new()
}

/// `HeaderMap::len`: the number of values held, over all names. A map
/// that holds no value holds no name.
#[verifier::external_body]
pub(crate) fn headers_len(map: &http::HeaderMap<http::HeaderValue>) -> (n: usize)
    ensures
        n == header_count(*map),
        n == 0 ==> header_fields(*map) == (Map::<Seq<char>, Seq<Seq<u8>>>::empty()),
{
    map.len()
}

/// `HeaderMap::insert`: puts `value` in place of every value that the map
/// holds under `name`. The call panics where the map cannot grow, which
/// a map below the limit of this server always can.
#[verifier::external_body]
pub(crate) fn headers_insert(
    map: &mut http::HeaderMap<http::HeaderValue>,
    name: http::HeaderName,
    value: http::HeaderValue,
)
    requires
        header_count(*old(map)) < MAX_HEADER_LINES,
    ensures
        header_fields(*final(map)) == header_fields(*old(map)).insert(
            header_name_text(name),
            seq![header_value_bytes(value)],
        ),
        header_count(*final(map)) <= header_count(*old(map)) + 1,
{
    map.insert(name, value);
}

/// `HeaderMap::extend` with another map: under each name of `added`, the
/// values of `added` take the place of those that the map holds. The call
/// panics where the map cannot grow, which it always can while the two
/// maps together stay within the limit of this server.
#[verifier::external_body]
pub(crate) fn headers_extend(
    map: &mut http::HeaderMap<http::HeaderValue>,
    added: http::HeaderMap<http::HeaderValue>,
)
    requires
        header_count(*old(map)) + header_count(added) <= MAX_HEADER_LINES,
    ensures
        header_fields(*final(map)) == header_fields(*old(map)).union_prefer_right(
            header_fields(added),
        ),
        header_count(*final(map)) <= header_count(*old(map)) + header_count(added),
{
    map.extend(added);
}

/// `HeaderName::from_bytes`: the name that `src` spells, in lower case,
/// or the error for bytes that spell none.
#[verifier::external_body]
pub(crate) fn header_name_from_bytes(src: &[u8]) -> (parsed: Result<
    http::HeaderName,
    http::header::InvalidHeaderName,
>)
    ensures
        match parsed {
            Ok(name) => parsed_header_name(src@) == Some(header_name_text(name)),
            Err(_) => parsed_header_name(src@) is None,
        },
{
    http::HeaderName::from_bytes(src)
}

/// `HeaderValue::from_bytes`: the value made of `src`, or the error where
/// a byte of `src` may not stand in a header value.
#[verifier::external_body]
pub(crate) fn header_value_from_bytes(src: &[u8]) -> (parsed: Result<
    http::HeaderValue,
    http::header::InvalidHeaderValue,
>)
    ensures
        match parsed {
            Ok(value) => header_value_bytes(value) == src@ && forall|i: int|
                0 <= i < src@.len() ==> header_value_byte(#[trigger] src@[i]),
            Err(_) => exists|i: int| 0 <= i < src@.len() && !header_value_byte(#[trigger] src@[i]),
        },
{
    http::HeaderValue::from_bytes(src)
}

/// `HeaderValue::from_static`: the value made of `text`. The call panics
/// on text that holds anything but visible ASCII, spaces and tabs.
#[verifier::external_body]
pub(crate) fn header_value_from_static(text: &'static str) -> (value: http::HeaderValue)
    requires
        forall|i: int| 0 <= i < text@.len() ==> visible_ascii(#[trigger] text@[i]),
    ensures
        header_value_bytes(value) == text@.map_values(|c: char| c as u8),
{
    http::HeaderValue::from_static(text)
}

/// `http::header::CONTENT_TYPE`: the name of the header that tells the
/// type of a body.
#[verifier::external_body]
pub(crate) fn content_type() -> (name: http::HeaderName)
    ensures
        header_name_text(name) == "content-type"@,
{
    http::header::CONTENT_TYPE
}

/// `mime::APPLICATION_JSON` as text.
#[verifier::external_body]
pub(crate) fn json_mime() -> (text: &'static str)
    ensures
        text@ == "application/json"@,
{
    mime::APPLICATION_JSON.as_ref()
}

/// `mime::TEXT_PLAIN_UTF_8` as text.
#[verifier::external_body]
pub(crate) fn plain_text_mime() -> (text: &'static str)
    ensures
        text@ == "text/plain; charset=utf-8"@,
{
    mime::TEXT_PLAIN_UTF_8.as_ref()
}

/// `InvalidHeaderName`'s `Display`, through `to_string`.
#[verifier::external_body]
pub(crate) fn invalid_header_name_text(error: &http::header::InvalidHeaderName) -> (text: String)
    ensures
        text@ == "invalid HTTP header name"@,
{
    error.to_string()
}

/// `InvalidHeaderValue`'s `Display`, through `to_string`.
#[verifier::external_body]
pub(crate) fn invalid_header_value_text(error: &http::header::InvalidHeaderValue) -> (text: String)
    ensures
        text@ == "failed to parse header value"@,
{
    error.to_string()
}

/// `Extensions::new`: no extensions.
#[verifier::external_body]
pub(crate) fn extensions_new() -> (extensions: http::Extensions)
    ensures
        extension_count(extensions) == 0,
{
    http::Extensions::new()
}

/// `Extensions::extend`: adds the extensions of `added`, each in place of
/// the one of its type that is held already.
#[verifier::external_body]
pub(crate) fn extensions_extend(extensions: &mut http::Extensions, added: http::Extensions)
    ensures
        *final(extensions) == merged_extensions(*old(extensions), added),
{
    extensions.extend(added);
}

} // verus!
