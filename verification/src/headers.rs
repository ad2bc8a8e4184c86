//! HTTP header maps and values from the `http` crate, as far as the Anthropic
//! support reads and writes them.

use vstd::prelude::*;

use vstd::string::StringExecFns;

verus! {

#[verifier::external_type_specification]
#[verifier::external_body]
#[verifier::reject_recursive_types(T)]
pub struct ExHeaderMap<T>(http::HeaderMap<T>);

#[verifier::external_type_specification]
#[verifier::external_body]
pub struct ExHeaderValue(http::HeaderValue);

#[verifier::external_type_specification]
#[verifier::external_body]
pub struct ExInvalidHeaderValue(http::header::InvalidHeaderValue);

#[verifier::external_type_specification]
#[verifier::external_body]
pub struct ExToStrError(http::header::ToStrError);

/// What a header map holds: for each header name, in lower case, its values
/// in the order they were added.
pub uninterp spec fn header_entries(m: http::HeaderMap) -> Map<Seq<char>, Seq<Seq<u8>>>;

/// The bytes of a header value.
pub uninterp spec fn header_value_bytes(v: http::HeaderValue) -> Seq<u8>;

/// A byte that a header value may hold: a tab, or any byte from 32 on but
/// DEL.
pub open spec fn is_header_value_byte(b: u8) -> bool {
    (b >= 32 && b != 127) || b == 9
}

/// A byte that a header value may hold and that reads as text: a tab, or
/// visible ASCII.
pub open spec fn is_visible_header_byte(b: u8) -> bool {
    (b >= 32 && b < 127) || b == 9
}

/// All bytes may stand in a header value.
pub open spec fn is_header_value(bytes: Seq<u8>) -> bool {
    forall|i: int| 0 <= i < bytes.len() ==> is_header_value_byte(#[trigger] bytes[i])
}

/// All bytes may stand in a header value and read as text.
pub open spec fn is_visible_header_value(bytes: Seq<u8>) -> bool {
    forall|i: int| 0 <= i < bytes.len() ==> is_visible_header_byte(#[trigger] bytes[i])
}

/// The characters that ASCII bytes stand for.
pub open spec fn ascii_chars(bytes: Seq<u8>) -> Seq<char> {
    Seq::new(bytes.len(), |i: int| bytes[i] as char)
}

/// A header name given in lower case: letters, digits and hyphens, not
/// empty.
pub open spec fn is_lower_header_name(name: Seq<char>) -> bool {
    &&& 0 < name.len() <= 64
    &&& forall|i: int|
        0 <= i < name.len() ==> {
            let c = #[trigger] name[i];
            ('a' <= c <= 'z') || ('0' <= c <= '9') || c == '-'
        }
}

/// Calls `http::HeaderValue::from_str`, which accepts text whose UTF-8 bytes
/// may all stand in a header value, and keeps those bytes.
#[verifier::external_body]
pub(crate) fn header_value_from_str(text: &str) -> (r: Result<
    http::HeaderValue,
    http::header::InvalidHeaderValue,
>)
    ensures
        r is Ok <==> is_header_value(vstd::utf8::encode_utf8(text@)),
        r matches Ok(v) ==> header_value_bytes(v) == vstd::utf8::encode_utf8(text@),
{
    http::HeaderValue::from_str(text)
}

/// Calls `http::HeaderValue::from_static`, which keeps the bytes of a text
/// of visible ASCII (and panics on any other, hence the precondition).
#[verifier::external_body]
pub(crate) fn header_value_from_static(text: &'static str) -> (r: http::HeaderValue)
    requires
        is_visible_header_value(vstd::utf8::encode_utf8(text@)),
    ensures
        header_value_bytes(r) == vstd::utf8::encode_utf8(text@),
{
    http::HeaderValue::from_static(text)
}

/// Calls `http::HeaderMap::insert` with a static lower-case name: the name
/// then holds the one value, whatever it held before, and the map gains at
/// most one name. The map panics when its
/// table would outgrow its largest size (32768 slots); with fewer than 6554
/// names it never grows that far, whatever it held before: a table of 32768
/// slots is doubled only once five times the names reach its size.
#[verifier::external_body]
pub(crate) fn header_map_insert(
    map: &mut http::HeaderMap,
    name: &'static str,
    value: http::HeaderValue,
)
    requires
        is_lower_header_name(name@),
        header_entries(*old(map)).dom().len() < 6554,
    ensures
        header_entries(*final(map)) == header_entries(*old(map)).insert(
            name@,
            seq![header_value_bytes(value)],
        ),
        header_entries(*final(map)).dom().len() <= header_entries(*old(map)).dom().len() + 1,
{
    let _ = map.insert(name, value);
}

/// Calls `http::HeaderMap::keys_len`: the number of names in the map.
#[verifier::external_body]
pub(crate) fn header_map_keys_len(map: &http::HeaderMap) -> (r: usize)
    ensures
        r == header_entries(*map).dom().len(),
{
    map.keys_len()
}

/// Whether `count` more names fit in the map without reaching the size at
/// which inserting may panic: what `add_auth_headers` (two names) and
/// `accept_event_stream` (one name) require.
pub fn can_add_headers(headers: &http::HeaderMap, count: usize) -> (r: bool)
    ensures
        r == (header_entries(*headers).dom().len() + count < 6554),
{
    let n = header_map_keys_len(headers);
    count < 6554 && n < 6554 - count
}

/// Calls `http::HeaderMap::get` with a lower-case name: the first value
/// under the name, if it has any.
#[verifier::external_body]
pub(crate) fn header_map_get<'a>(map: &'a http::HeaderMap, name: &str) -> (r: Option<
    &'a http::HeaderValue,
>)
    requires
        is_lower_header_name(name@),
    ensures
        r is Some <==> (header_entries(*map).contains_key(name@) && header_entries(*map)[name@].len()
            > 0),
        r matches Some(v) ==> header_value_bytes(*v) == header_entries(*map)[name@][0],
{
    map.get(name)
}

/// Calls `http::HeaderValue::to_str`, which reads a value of visible ASCII
/// (and tabs) as text.
#[verifier::external_body]
pub(crate) fn header_value_to_str(value: &http::HeaderValue) -> (r: Result<&str, http::header::ToStrError>)
    ensures
        r is Ok <==> is_visible_header_value(header_value_bytes(*value)),
        r matches Ok(t) ==> t@ == ascii_chars(header_value_bytes(*value)),
{
    value.to_str()
}

/// Marks a request as one that expects an event stream: its `accept`
/// header then holds `text/event-stream` alone.
pub fn accept_event_stream(headers: &mut http::HeaderMap)
    requires
        header_entries(*old(headers)).dom().len() < 6554,
    ensures
        header_entries(*final(headers)) == header_entries(*old(headers)).insert(
            "accept"@,
            seq![vstd::utf8::encode_utf8("text/event-stream"@)],
        ),
        header_entries(*final(headers)).dom().len() <= header_entries(*old(headers)).dom().len()
            + 1,
{
    proof {
        reveal_strlit("accept");
        reveal_strlit("text/event-stream");
        vstd::utf8::is_ascii_chars_encode_utf8("text/event-stream"@);
        assert(is_lower_header_name("accept"@));
        assert(is_visible_header_value(vstd::utf8::encode_utf8("text/event-stream"@)));
    }
    header_map_insert(headers, "accept", header_value_from_static("text/event-stream"));
}

/// The name of the header that carries the request's identifier.
pub open spec fn request_id_header() -> Seq<char> {
    "x-request-id"@
}

/// The request identifier that response headers carry: the first
/// `x-request-id` value, when it reads as text.
pub open spec fn request_id_of(entries: Map<Seq<char>, Seq<Seq<u8>>>) -> Option<Seq<char>> {
    if entries.contains_key(request_id_header()) && entries[request_id_header()].len() > 0
        && is_visible_header_value(entries[request_id_header()][0]) {
        Some(ascii_chars(entries[request_id_header()][0]))
    } else {
        None
    }
}

/// The identifier of the request that a response answers, read from its
/// `x-request-id` header.
pub fn upstream_request_id(headers: &http::HeaderMap) -> (r: Option<String>)
    ensures
        r.deep_view() == request_id_of(header_entries(*headers)),
{
    proof {
        reveal_strlit("x-request-id");
    }
    match header_map_get(headers, "x-request-id") {
        Some(v) => match header_value_to_str(v) {
            Ok(t) => Some(String::from_str(t)),
            Err(_) => None,
        },
        None => None,
    }
}

} // verus!
