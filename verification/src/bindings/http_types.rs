use http::HeaderMap;
use vstd::prelude::*;

verus! {

/// `http::HeaderValue`, a validated HTTP header value.
#[verifier::external_type_specification]
#[verifier::external_body]
pub struct ExHeaderValue(http::HeaderValue);

/// `http::header::InvalidHeaderValue`, the error for bytes that a header
/// value may not hold.
#[verifier::external_type_specification]
#[verifier::external_body]
pub struct ExInvalidHeaderValue(http::header::InvalidHeaderValue);

/// The bytes that a header value holds.
pub uninterp spec fn header_value_bytes(v: http::HeaderValue) -> Seq<u8>;

/// `http::StatusCode`, an HTTP status code.
#[verifier::external_type_specification]
#[verifier::external_body]
pub struct ExStatusCode(http::StatusCode);

/// `http::status::InvalidStatusCode`, the error for a number that is not a
/// status code.
#[verifier::external_type_specification]
#[verifier::external_body]
pub struct ExInvalidStatusCode(http::status::InvalidStatusCode);

/// The number that a status code stands for.
pub uninterp spec fn status_number(s: http::StatusCode) -> u16;

/// The canonical reason phrase that the `http` crate gives a status code.
pub uninterp spec fn canonical_reason_of(code: u16) -> Option<Seq<char>>;

/// A number is a status code: the `http` crate accepts `100..=999`.
pub open spec fn status_code_ok(code: u16) -> bool {
    100 <= code <= 999
}

/// Calls `http::StatusCode::from_u16`, which accepts exactly the numbers in
/// `100..=999`.
#[verifier::external_body]
pub fn status_from_u16(code: u16) -> (r: Result<http::StatusCode, http::status::InvalidStatusCode>)
    ensures
        r is Ok <==> status_code_ok(code),
        r matches Ok(s) ==> status_number(s) == code,
{
    http::StatusCode::from_u16(code)
}

/// Calls `http::StatusCode::as_u16`, the number of the code.
#[verifier::external_body]
pub fn status_as_u16(s: &http::StatusCode) -> (r: u16)
    ensures
        r == status_number(*s),
        status_code_ok(r),
{
    s.as_u16()
}

/// Calls `http::StatusCode::canonical_reason`. The phrase is named, not
/// spelled out: it comes from a table of the `http` crate.
#[verifier::external_body]
pub fn status_canonical_reason(s: &http::StatusCode) -> (r: Option<&'static str>)
    ensures
        match r {
            Some(text) => canonical_reason_of(status_number(*s)) == Some(text@),
            None => canonical_reason_of(status_number(*s)) is None,
        },
{
    s.canonical_reason()
}

/// `http::Method`, an HTTP request method.
#[verifier::external_type_specification]
#[verifier::external_body]
pub struct ExMethod(http::Method);

/// The name of a method, as `Method::as_str` gives it.
pub uninterp spec fn method_text(m: http::Method) -> Seq<char>;

/// Calls `Method::as_str`, the name of the method.
#[verifier::external_body]
pub fn method_as_str(m: &http::Method) -> (r: &str)
    ensures
        r@ == method_text(*m),
{
    m.as_str()
}

/// Calls `Method::clone`; the clone has the same name.
#[verifier::external_body]
pub fn method_clone(m: &http::Method) -> (r: http::Method)
    ensures
        method_text(r) == method_text(*m),
{
    m.clone()
}

/// Calls `<Method as PartialEq>::eq`. Standard names always make standard
/// methods and other names extension methods that hold the name, so two
/// methods are equal exactly when their names are.
#[verifier::external_body]
pub fn method_eq(a: &http::Method, b: &http::Method) -> (r: bool)
    ensures
        r == (method_text(*a) == method_text(*b)),
{
    a == b
}

/// `Method::CONNECT`.
#[verifier::external_body]
pub fn method_connect() -> (r: http::Method)
    ensures
        method_text(r) == "CONNECT"@,
{
    http::Method::CONNECT
}

/// `Method::DELETE`.
#[verifier::external_body]
pub fn method_delete() -> (r: http::Method)
    ensures
        method_text(r) == "DELETE"@,
{
    http::Method::DELETE
}

/// `Method::GET`.
#[verifier::external_body]
pub fn method_get() -> (r: http::Method)
    ensures
        method_text(r) == "GET"@,
{
    http::Method::GET
}

/// `Method::HEAD`.
#[verifier::external_body]
pub fn method_head() -> (r: http::Method)
    ensures
        method_text(r) == "HEAD"@,
{
    http::Method::HEAD
}

/// `Method::OPTIONS`.
#[verifier::external_body]
pub fn method_options() -> (r: http::Method)
    ensures
        method_text(r) == "OPTIONS"@,
{
    http::Method::OPTIONS
}

/// `Method::PATCH`.
#[verifier::external_body]
pub fn method_patch() -> (r: http::Method)
    ensures
        method_text(r) == "PATCH"@,
{
    http::Method::PATCH
}

/// `Method::POST`.
#[verifier::external_body]
pub fn method_post() -> (r: http::Method)
    ensures
        method_text(r) == "POST"@,
{
    http::Method::POST
}

/// `Method::PUT`.
#[verifier::external_body]
pub fn method_put() -> (r: http::Method)
    ensures
        method_text(r) == "PUT"@,
{
    http::Method::PUT
}

/// `Method::TRACE`.
#[verifier::external_body]
pub fn method_trace() -> (r: http::Method)
    ensures
        method_text(r) == "TRACE"@,
{
    http::Method::TRACE
}

/// A character may stand in a header value: the `http` crate accepts every
/// byte from 32 up except 127, and the tab. The UTF-8 bytes of characters
/// beyond ASCII are all 128 or more, so they are accepted too.
pub open spec fn header_char_ok(c: char) -> bool {
    (c as u32 >= 32 && c as u32 != 127) || c as u32 == 9
}

/// All characters of a text may stand in a header value.
pub open spec fn header_value_ok(s: Seq<char>) -> bool {
    forall|i: int| 0 <= i < s.len() ==> header_char_ok(#[trigger] s[i])
}

/// Calls `http::HeaderValue::from_str`, which fails exactly when a byte of
/// the text is a control character other than tab, or 127.
#[verifier::external_body]
pub fn header_value_from_str(s: &str) -> (r: Result<http::HeaderValue, http::header::InvalidHeaderValue>)
    ensures
        r is Ok <==> header_value_ok(s@),
        r matches Ok(v) ==> header_value_bytes(v) == vstd::utf8::encode_utf8(s@),
{
    http::HeaderValue::from_str(s)
}

/// Calls `HeaderValue::try_from(String)`, which, like `from_str`, fails
/// exactly when a byte of the text is a control character other than tab,
/// or 127.
#[verifier::external_body]
pub fn header_value_from_string(s: String) -> (r: Result<http::HeaderValue, http::header::InvalidHeaderValue>)
    ensures
        r is Ok <==> header_value_ok(s@),
        r matches Ok(v) ==> header_value_bytes(v) == vstd::utf8::encode_utf8(s@),
{
    http::HeaderValue::try_from(s)
}

/// `http::HeaderMap`, a multimap from header names to header values.
#[verifier::external_type_specification]
#[verifier::external_body]
#[verifier::reject_recursive_types(T)]
pub struct ExHeaderMap<T>(http::HeaderMap<T>);

/// What a header map holds: each name (in lower case) with its values in
/// the order they were appended.
pub uninterp spec fn header_map_entries(m: http::HeaderMap) -> Map<Seq<char>, Seq<Seq<u8>>>;

/// The number of names up to which a header map can always take one more
/// name. The `http` crate's table holds at most 2^15 slots; once probing
/// grows long it doubles the table as soon as five times the names reach
/// the slots, which fails at 2^15 slots from 6554 names on.
pub const HEADER_MAP_MERGE_LIMIT: usize = 6553;

/// Calls `http::HeaderMap::new`, an empty map.
#[verifier::external_body]
pub fn header_map_new() -> (r: HeaderMap)
    ensures
        header_map_entries(r).dom() == Set::<Seq<char>>::empty(),
{
    http::HeaderMap::new()
}

/// Calls `http::HeaderMap::keys_len`, the number of distinct names.
#[verifier::external_body]
pub fn header_map_keys_len(m: &http::HeaderMap) -> (r: usize)
    ensures
        r == header_map_entries(*m).dom().len(),
{
    m.keys_len()
}

/// Calls `Extend::extend` on a map with another map: each name of the
/// other map replaces the values of that name with its own, and other
/// names are kept. Growing the map panics when the table cannot double;
/// `requires` keeps the names of both maps together at a count where it
/// always can.
#[verifier::external_body]
pub fn header_map_extend(dst: &mut http::HeaderMap, src: http::HeaderMap)
    requires
        header_map_entries(*old(dst)).dom().len() + header_map_entries(src).dom().len()
            <= HEADER_MAP_MERGE_LIMIT,
    ensures
        header_map_entries(*final(dst)) == header_map_entries(*old(dst)).union_prefer_right(
            header_map_entries(src),
        ),
{
    dst.extend(src)
}

/// The values of a name in a header map, in order: none where the name is
/// absent.
pub open spec fn header_values(m: Map<Seq<char>, Seq<Seq<u8>>>, name: Seq<char>) -> Seq<Seq<u8>> {
    if m.contains_key(name) {
        m[name]
    } else {
        Seq::empty()
    }
}

/// Calls `http::HeaderMap::try_append` with the name `set-cookie`. On
/// success the value follows the values the name already has. It fails,
/// with the map as it was, only when the table cannot grow, which cannot
/// happen while the map holds at most `HEADER_MAP_MERGE_LIMIT` names; a
/// map holds finitely many names.
#[verifier::external_body]
pub fn header_map_append_set_cookie(m: &mut http::HeaderMap, value: http::HeaderValue) -> (r: Result<(), ()>)
    ensures
        header_map_entries(*old(m)).dom().finite(),
        header_map_entries(*old(m)).dom().len() <= HEADER_MAP_MERGE_LIMIT ==> r is Ok,
        r is Ok ==> header_map_entries(*final(m)) == header_map_entries(*old(m)).insert(
            "set-cookie"@,
            header_values(header_map_entries(*old(m)), "set-cookie"@).push(header_value_bytes(value)),
        ),
        r is Err ==> header_map_entries(*final(m)) == header_map_entries(*old(m)),
{
    match m.try_append(http::header::SET_COOKIE, value) {
        Ok(_) => Ok(()),
        Err(_) => Err(()),
    }
}

} // verus!
