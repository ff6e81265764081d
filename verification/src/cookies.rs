//! Middleware that parses the cookies of requests and writes the cookies
//! that a response changed back as `Set-Cookie` headers.

use vstd::prelude::*;

use crate::bindings::cookie_codec::{
    cookie_to_encoded_string, cookie_text_of, cookie_to_string, encoded_cookie_text_of,
    jar_add_original, jar_delta, jar_delta_fields, jar_originals,
};
use crate::bindings::http_types::{
    header_map_append_set_cookie, header_map_entries, HEADER_MAP_MERGE_LIMIT, header_value_bytes, header_value_from_str,
    header_value_ok, header_values,
};
use crate::builtin::cookies::{
    all_parsed, err_text, first_error, ok_pair, pairs_view, parse_of, percent_decode, unencoded,
    Codec,
};
use crate::error::{Error, ErrorView};

verus! {

/// How cookie names and values travel in headers.
#[derive(Clone, Copy, Debug, PartialEq, Eq, Structural)]
pub enum UriEncoding {
    /// Percent-encoded.
    Percent,
    /// As they are.
    Unencoded,
}

/// Parses the `Cookie` header of requests and serializes the cookies that
/// a response changed into `Set-Cookie` headers.
#[derive(Debug)]
pub struct Cookies {
    encoding: UriEncoding,
}

/// A `Set-Cookie` header could not be built from a cookie.
#[derive(Debug)]
pub struct SetCookieError;

/// The codec of the strict parser that reads cookies as an encoding says.
pub open spec fn codec_of(encoding: UriEncoding) -> Codec {
    match encoding {
        UriEncoding::Percent => Codec::PercentEncoded,
        UriEncoding::Unencoded => Codec::Unencoded,
    }
}

/// The earliest year that a cookie's expiry may fall in, as seconds since
/// the Unix epoch: the start of the year -9999.
pub const EXPIRES_MIN: i64 = -377705116800;

/// The latest instant that a cookie's expiry may be, as seconds since the
/// Unix epoch: the end of the year 9999.
pub const EXPIRES_MAX: i64 = 253402300799;

/// The `SameSite` attribute of a cookie.
#[derive(Clone, Copy, Debug, PartialEq, Eq, Structural)]
pub enum SameSitePolicy {
    /// `SameSite=Strict`.
    Strict,
    /// `SameSite=Lax`.
    Lax,
    /// `SameSite=None`.
    Unrestricted,
}

/// A cookie that a response sets, as the fields that its `Set-Cookie` text
/// is written from. `max_age` is in whole seconds and `expires` in seconds
/// since the Unix epoch.
#[derive(Debug)]
pub struct CookieFields {
    pub name: String,
    pub value: String,
    pub http_only: Option<bool>,
    pub secure: Option<bool>,
    pub partitioned: Option<bool>,
    pub same_site: Option<SameSitePolicy>,
    pub path: Option<String>,
    pub domain: Option<String>,
    pub max_age: Option<i64>,
    pub expires: Option<i64>,
}

/// The abstract value of a cookie's fields.
pub struct CookieView {
    pub name: Seq<char>,
    pub value: Seq<char>,
    pub http_only: Option<bool>,
    pub secure: Option<bool>,
    pub partitioned: Option<bool>,
    pub same_site: Option<SameSitePolicy>,
    pub path: Option<Seq<char>>,
    pub domain: Option<Seq<char>>,
    pub max_age: Option<i64>,
    pub expires: Option<i64>,
}

/// The view of an optional text.
pub open spec fn opt_text(s: Option<String>) -> Option<Seq<char>> {
    match s {
        Some(t) => Some(t@),
        None => None,
    }
}

impl View for CookieFields {
    type V = CookieView;

    open spec fn view(&self) -> CookieView {
        CookieView {
            name: self.name@,
            value: self.value@,
            http_only: self.http_only,
            secure: self.secure,
            partitioned: self.partitioned,
            same_site: self.same_site,
            path: opt_text(self.path),
            domain: opt_text(self.domain),
            max_age: self.max_age,
            expires: self.expires,
        }
    }
}

/// The expiry of a cookie, where it has one, lies in the years -9999 to
/// 9999, the years that the `cookie` crate can write.
pub open spec fn expiry_in_range(c: CookieView) -> bool {
    match c.expires {
        Some(t) => EXPIRES_MIN <= t <= EXPIRES_MAX,
        None => true,
    }
}

impl CookieFields {
    /// The expiry, where there is one, lies in the years -9999 to 9999.
    pub open spec fn expires_in_range(&self) -> bool {
        expiry_in_range(self@)
    }

    /// Whether the expiry, where there is one, lies in the years -9999 to
    /// 9999.
    pub fn has_writable_expiry(&self) -> (r: bool)
        ensures
            r == self.expires_in_range(),
    {
        match self.expires {
            Some(t) => EXPIRES_MIN <= t && t <= EXPIRES_MAX,
            None => true,
        }
    }

    /// A cookie with a name and a value and no attributes.
    pub fn new(name: String, value: String) -> (r: CookieFields)
        ensures
            r@ == (CookieView {
                name: name@,
                value: value@,
                http_only: None,
                secure: None,
                partitioned: None,
                same_site: None,
                path: None,
                domain: None,
                max_age: None,
                expires: None,
            }),
    {
        CookieFields {
            name,
            value,
            http_only: None,
            secure: None,
            partitioned: None,
            same_site: None,
            path: None,
            domain: None,
            max_age: None,
            expires: None,
        }
    }
}

/// The `Set-Cookie` text of a cookie under an encoding: with name and value
/// percent-encoded under `Percent`, as they are under `Unencoded`.
pub open spec fn set_cookie_text_of(encoding: UriEncoding, c: CookieView) -> Seq<char> {
    match encoding {
        UriEncoding::Percent => encoded_cookie_text_of(c),
        UriEncoding::Unencoded => cookie_text_of(c),
    }
}

/// A map of originals after adding cookies, given by name and value, one
/// after the other: a later cookie replaces an earlier one of its name.
pub open spec fn with_originals(
    m: Map<Seq<char>, Seq<char>>,
    pairs: Seq<(Seq<char>, Seq<char>)>,
) -> Map<Seq<char>, Seq<char>>
    decreases pairs.len(),
{
    if pairs.len() == 0 {
        m
    } else {
        with_originals(m, pairs.drop_last()).insert(pairs.last().0, pairs.last().1)
    }
}

/// Adds cookies, given by name and value, to a jar as originals, in order.
fn add_originals(jar: &mut cookie::CookieJar, pairs: &Vec<(String, String)>)
    ensures
        jar_delta(*final(jar)) == jar_delta(*old(jar)),
        jar_originals(*final(jar)) == with_originals(jar_originals(*old(jar)), pairs_view(pairs@)),
{
    let mut i: usize = 0;
    while i < pairs.len()
        invariant
            i <= pairs@.len(),
            jar_delta(*jar) == jar_delta(*old(jar)),
            jar_originals(*jar) == with_originals(
                jar_originals(*old(jar)),
                pairs_view(pairs@).take(i as int),
            ),
        decreases pairs@.len() - i,
    {
        jar_add_original(jar, pairs[i].0.clone(), pairs[i].1.clone());
        proof {
            let v = pairs_view(pairs@);
            assert(v.take(i + 1).drop_last() =~= v.take(i as int));
            assert(v.take(i + 1).last() == v[i as int]);
        }
        i += 1;
    }
    assert(pairs_view(pairs@).take(pairs@.len() as int) =~= pairs_view(pairs@));
}

/// The views of a list of cookies.
pub open spec fn cookie_views(s: Seq<CookieFields>) -> Seq<CookieView> {
    s.map_values(|c: CookieFields| c@)
}

/// The `Set-Cookie` header values of a list of cookies under an encoding,
/// as bytes, in order.
pub open spec fn set_cookie_values(encoding: UriEncoding, s: Seq<CookieView>) -> Seq<Seq<u8>> {
    s.map_values(|c: CookieView| vstd::utf8::encode_utf8(set_cookie_text_of(encoding, c)))
}

/// Every cookie of a list can be written as a header value.
pub open spec fn all_writable(encoding: UriEncoding, s: Seq<CookieView>) -> bool {
    forall|i: int| 0 <= i < s.len() ==> header_value_ok(#[trigger] set_cookie_text_of(encoding, s[i]))
}

/// A header map with values appended, in order, under a name: the map as
/// it was when there are none.
pub open spec fn with_appended(
    m: Map<Seq<char>, Seq<Seq<u8>>>,
    name: Seq<char>,
    values: Seq<Seq<u8>>,
) -> Map<Seq<char>, Seq<Seq<u8>>> {
    if values.len() == 0 {
        m
    } else {
        m.insert(name, header_values(m, name) + values)
    }
}

/// The text of a `SetCookieError`.
pub open spec fn set_cookie_error_text() -> Seq<char> {
    "An error occurred while writing a Set-Cookie header to a response."@
}

impl Cookies {
    /// The encoding of cookie names and values.
    pub closed spec fn spec_encoding(&self) -> UriEncoding {
        self.encoding
    }

    /// Middleware for unencoded request and response cookies.
    pub fn new() -> (r: Cookies)
        ensures
            r.spec_encoding() == UriEncoding::Unencoded,
    {
        Cookies::default()
    }

    /// Middleware for percent-encoded request and response cookies.
    pub fn percent_decode() -> (r: Cookies)
        ensures
            r.spec_encoding() == UriEncoding::Percent,
    {
        Cookies { encoding: UriEncoding::Percent }
    }

    /// The encoding of cookie names and values.
    pub fn encoding(&self) -> (r: UriEncoding)
        ensures
            r == self.spec_encoding(),
    {
        self.encoding
    }

    /// The cookies of a request, from its `Cookie` header read as text: no
    /// header, or one that is not text, gives none; otherwise every cookie
    /// is kept, in order, and the first that does not parse fails the
    /// request with `400 Bad Request` and the text of the parse error. This
    /// is what the strict parser of the same encoding gives.
    pub fn parse_header(&self, header: Option<&str>) -> (r: Result<Vec<(String, String)>, Error>)
        ensures
            match header {
                None => r matches Ok(v) && v@.len() == 0,
                Some(input) => {
                    let parsed = parse_of(codec_of(self.spec_encoding()), input@);
                    &&& all_parsed(parsed) ==> (r matches Ok(v) && pairs_view(v@)
                        == parsed.map_values(|p| ok_pair(p)))
                    &&& forall|i: int| #[trigger] first_error(parsed, i) ==> (r matches Err(x)
                        && x.view() == ErrorView {
                        as_json: false,
                        status: 400,
                        error: err_text(parsed[i]),
                        message: None,
                    })
                },
            },
    {
        let parser = match self.encoding {
            UriEncoding::Percent => percent_decode(),
            UriEncoding::Unencoded => unencoded(),
        };
        parser.parse_header(Ok(header))
    }
}

impl Cookies {
    /// The request half of the middleware: the cookies of the `Cookie`
    /// header, parsed as `parse_header` does, go into the request's jar as
    /// originals, in order, and are returned to be added again to the
    /// response's jar. A failed parse leaves the jar as it was.
    pub fn read_request_cookies(
        &self,
        header: Option<&str>,
        jar: &mut cookie::CookieJar,
    ) -> (r: Result<Vec<(String, String)>, Error>)
        ensures
            jar_delta(*final(jar)) == jar_delta(*old(jar)),
            match header {
                None => r matches Ok(v) && v@.len() == 0,
                Some(input) => {
                    let parsed = parse_of(codec_of(self.spec_encoding()), input@);
                    &&& all_parsed(parsed) ==> (r matches Ok(v) && pairs_view(v@)
                        == parsed.map_values(|p| ok_pair(p)))
                    &&& forall|i: int| #[trigger] first_error(parsed, i) ==> (r matches Err(x)
                        && x.view() == ErrorView {
                        as_json: false,
                        status: 400,
                        error: err_text(parsed[i]),
                        message: None,
                    })
                },
            },
            r matches Ok(v) ==> jar_originals(*final(jar)) == with_originals(
                jar_originals(*old(jar)),
                pairs_view(v@),
            ),
            r is Err ==> jar_originals(*final(jar)) == jar_originals(*old(jar)),
    {
        match self.parse_header(header) {
            Ok(pairs) => {
                add_originals(jar, &pairs);
                Ok(pairs)
            },
            Err(e) => Err(e),
        }
    }

    /// The response half of the middleware: the cookies of the request go
    /// back into the response's jar as originals, which leaves its delta as
    /// it was, and each cookie of the delta is written as a `Set-Cookie`
    /// value under the encoding, in the order the jar hands them out. The
    /// first cookie that is not a valid header value, or an append that
    /// the map refuses, fails the response with `500 Internal Server
    /// Error`. `None`, with the headers untouched, when a cookie of the
    /// delta expires outside the years that the `cookie` crate can write.
    pub fn write_set_cookies(
        &self,
        originals: Vec<(String, String)>,
        jar: &mut cookie::CookieJar,
        headers: &mut http::HeaderMap,
    ) -> (r: Option<Result<(), Error>>)
        ensures
            jar_delta(*final(jar)) == jar_delta(*old(jar)),
            jar_originals(*final(jar)) == with_originals(
                jar_originals(*old(jar)),
                pairs_view(originals@),
            ),
            r is None <==> exists|c: CookieView|
                #[trigger] jar_delta(*old(jar)).contains(c) && !expiry_in_range(c),
            r is None ==> header_map_entries(*final(headers)) == header_map_entries(*old(headers)),
            jar_delta(*old(jar)).len() == 0 ==> r matches Some(Ok(_)),
            (forall|c: CookieView|
                #[trigger] jar_delta(*old(jar)).contains(c) ==> expiry_in_range(c) && header_value_ok(
                    set_cookie_text_of(self.spec_encoding(), c),
                )) && header_map_entries(*old(headers)).dom().len() < HEADER_MAP_MERGE_LIMIT
                ==> r matches Some(Ok(_)),
            r matches Some(Ok(_)) ==> forall|c: CookieView|
                #[trigger] jar_delta(*old(jar)).contains(c) ==> header_value_ok(
                    set_cookie_text_of(self.spec_encoding(), c),
                ),
            r matches Some(Ok(_)) ==> exists|s: Seq<CookieView>|
                #[trigger] s.to_multiset() == jar_delta(*old(jar)) && header_map_entries(
                    *final(headers),
                ) == with_appended(
                    header_map_entries(*old(headers)),
                    "set-cookie"@,
                    set_cookie_values(self.spec_encoding(), s),
                ),
            r matches Some(Err(e)) ==> e.view() == (ErrorView {
                as_json: false,
                status: 500,
                error: set_cookie_error_text(),
                message: None,
            }),
    {
        add_originals(jar, &originals);
        let delta = jar_delta_fields(jar);
        let ghost views = cookie_views(delta@);
        proof {
            broadcast use vstd::seq_lib::group_to_multiset_ensures;
            assert forall|c: CookieView| #[trigger] jar_delta(*old(jar)).contains(c) implies views.contains(c) by {
                assert(views.to_multiset().count(c) > 0);
            }
        }
        let mut k: usize = 0;
        while k < delta.len()
            invariant
                k <= delta@.len(),
                views == cookie_views(delta@),
                views.to_multiset() == jar_delta(*old(jar)),
                jar_delta(*jar) == jar_delta(*old(jar)),
                jar_originals(*jar) == with_originals(
                    jar_originals(*old(jar)),
                    pairs_view(originals@),
                ),
                *headers == *old(headers),
                forall|j: int| 0 <= j < k ==> (#[trigger] delta@[j]).expires_in_range(),
            decreases delta@.len() - k,
        {
            if !delta[k].has_writable_expiry() {
                proof {
                    broadcast use vstd::seq_lib::group_to_multiset_ensures;
                    assert(views[k as int] == delta@[k as int]@);
                    assert(views.contains(views[k as int]));
                    assert(views.to_multiset().count(views[k as int]) > 0);
                    assert(jar_delta(*old(jar)).contains(views[k as int]));
                }
                return None;
            }
            k += 1;
        }
        proof {
            assert forall|c: CookieView| #[trigger] jar_delta(*old(jar)).contains(c) implies expiry_in_range(c) by {
                let j = choose|j: int| 0 <= j < views.len() && views[j] == c;
                assert(delta@[j].expires_in_range());
            }
        }
        proof {
            broadcast use vstd::seq_lib::group_to_multiset_ensures;
            if forall|c: CookieView|
                #[trigger] jar_delta(*old(jar)).contains(c) ==> header_value_ok(
                    set_cookie_text_of(self.spec_encoding(), c),
                ) {
                assert forall|j: int| 0 <= j < views.len() implies header_value_ok(
                    #[trigger] set_cookie_text_of(self.encoding, views[j]),
                ) by {
                    assert(views.contains(views[j]));
                    assert(views.to_multiset().count(views[j]) > 0);
                    assert(jar_delta(*old(jar)).contains(views[j]));
                }
            }
        }
        let result = set_cookie_headers(self.encoding, &delta, headers);
        proof {
            if result is Ok {
                assert forall|c: CookieView| #[trigger] jar_delta(*old(jar)).contains(c) implies header_value_ok(
                    set_cookie_text_of(self.spec_encoding(), c),
                ) by {
                    let j = choose|j: int| 0 <= j < views.len() && views[j] == c;
                    assert(header_value_ok(set_cookie_text_of(self.encoding, views[j])));
                }
                assert(views.to_multiset() == jar_delta(*old(jar)));
            }
        }
        Some(result)
    }
}

impl Default for Cookies {
    /// Middleware for unencoded cookies.
    fn default() -> (r: Cookies)
        ensures
            r.spec_encoding() == UriEncoding::Unencoded,
    {
        Cookies { encoding: UriEncoding::Unencoded }
    }
}

impl SetCookieError {
    /// The text of the error.
    pub fn to_string(&self) -> (r: String)
        ensures
            r@ == set_cookie_error_text(),
    {
        "An error occurred while writing a Set-Cookie header to a response.".to_string()
    }

    /// The error as it reaches the client: `500 Internal Server Error`
    /// with the text of the error.
    pub fn into_error(self) -> (r: Error)
        ensures
            r.view() == (crate::error::ErrorView {
                as_json: false,
                status: 500,
                error: set_cookie_error_text(),
                message: None,
            }),
    {
        let text = self.to_string();
        Error::internal_server_error(text)
    }
}

/// The `Set-Cookie` header value of a serialized cookie: it fails exactly
/// when the text holds a character that a header value may not hold.
pub fn set_cookie_value(text: &str) -> (r: Result<http::HeaderValue, SetCookieError>)
    ensures
        r is Ok <==> header_value_ok(text@),
        r matches Ok(v) ==> header_value_bytes(v) == vstd::utf8::encode_utf8(text@),
{
    match header_value_from_str(text) {
        Ok(value) => Ok(value),
        Err(_) => Err(SetCookieError),
    }
}

/// The `Set-Cookie` header value of a cookie under an encoding: the cookie
/// is serialized by the `cookie` crate, with its name and value
/// percent-encoded under `Percent`, and then checked as a header value.
pub fn encode_set_cookie_header(encoding: UriEncoding, cookie: &CookieFields) -> (r: Result<
    http::HeaderValue,
    SetCookieError,
>)
    requires
        cookie.expires_in_range(),
    ensures
        r is Ok <==> header_value_ok(set_cookie_text_of(encoding, cookie@)),
        r matches Ok(v) ==> header_value_bytes(v) == vstd::utf8::encode_utf8(
            set_cookie_text_of(encoding, cookie@),
        ),
{
    let text = match encoding {
        UriEncoding::Percent => cookie_to_encoded_string(cookie),
        UriEncoding::Unencoded => cookie_to_string(cookie),
    };
    set_cookie_value(&text)
}

/// Appending values one at a time under a name gives the map with all of
/// them appended in order.
proof fn lemma_with_appended_push(
    m: Map<Seq<char>, Seq<Seq<u8>>>,
    name: Seq<char>,
    values: Seq<Seq<u8>>,
    value: Seq<u8>,
)
    ensures
        with_appended(m, name, values.push(value)) == with_appended(m, name, values).insert(
            name,
            header_values(with_appended(m, name, values), name).push(value),
        ),
{
    if values.len() == 0 {
        assert(header_values(m, name) + values.push(value) =~= header_values(m, name).push(value));
    } else {
        let n = with_appended(m, name, values);
        assert(n.contains_key(name));
        assert(header_values(m, name) + values.push(value) =~= (header_values(m, name)
            + values).push(value));
        assert(with_appended(m, name, values.push(value)) =~= n.insert(
            name,
            header_values(n, name).push(value),
        ));
    }
}

/// Writes the cookies that a response changed into its headers, one
/// `Set-Cookie` value per cookie, in order, each serialized under the
/// encoding. The first cookie that is not a valid header value fails the
/// response with `500 Internal Server Error`, as does an append that the
/// map refuses because it has reached its size limit; the values appended
/// before the failure stay.
pub fn set_cookie_headers(
    encoding: UriEncoding,
    delta: &Vec<CookieFields>,
    headers: &mut http::HeaderMap,
) -> (r: Result<(), Error>)
    requires
        forall|i: int| 0 <= i < delta@.len() ==> (#[trigger] delta@[i]).expires_in_range(),
    ensures
        r is Ok ==> all_writable(encoding, cookie_views(delta@)),
        r is Ok ==> header_map_entries(*final(headers)) == with_appended(
            header_map_entries(*old(headers)),
            "set-cookie"@,
            set_cookie_values(encoding, cookie_views(delta@)),
        ),
        !all_writable(encoding, cookie_views(delta@)) ==> r is Err,
        delta@.len() == 0 ==> r is Ok,
        all_writable(encoding, cookie_views(delta@)) && header_map_entries(
            *old(headers),
        ).dom().len() < HEADER_MAP_MERGE_LIMIT ==> r is Ok,
        r matches Err(e) ==> e.view() == (ErrorView {
            as_json: false,
            status: 500,
            error: set_cookie_error_text(),
            message: None,
        }),
        r is Err ==> exists|k: int|
            0 <= k <= delta@.len() && header_map_entries(*final(headers)) == with_appended(
                header_map_entries(*old(headers)),
                "set-cookie"@,
                set_cookie_values(encoding, cookie_views(delta@)).take(k),
            ),
{
    let ghost start = header_map_entries(*headers);
    let ghost views = cookie_views(delta@);
    let ghost values = set_cookie_values(encoding, views);
    let mut i: usize = 0;
    while i < delta.len()
        invariant
            i <= delta@.len(),
            start == header_map_entries(*old(headers)),
            forall|j: int| 0 <= j < delta@.len() ==> (#[trigger] delta@[j]).expires_in_range(),
            views == cookie_views(delta@),
            values == set_cookie_values(encoding, views),
            forall|j: int| 0 <= j < i ==> header_value_ok(
                #[trigger] set_cookie_text_of(encoding, views[j]),
            ),
            header_map_entries(*headers) == with_appended(start, "set-cookie"@, values.take(i as int)),
            i > 0 ==> start.dom().finite(),
        decreases delta@.len() - i,
    {
        assert(views[i as int] == delta@[i as int]@);
        proof {
            if i > 0 {
                assert(values.take(i as int).len() > 0);
                assert(header_map_entries(*headers).dom() =~= start.dom().insert("set-cookie"@));
            }
        }
        let value = match encode_set_cookie_header(encoding, &delta[i]) {
            Ok(value) => value,
            Err(error) => {
                assert(header_map_entries(*headers) == with_appended(
                    header_map_entries(*old(headers)),
                    "set-cookie"@,
                    set_cookie_values(encoding, cookie_views(delta@)).take(i as int),
                ));
                return Err(error.into_error());
            },
        };
        let ghost before = header_map_entries(*headers);
        match header_map_append_set_cookie(headers, value) {
            Ok(()) => {},
            Err(()) => {
                assert(header_map_entries(*headers) == with_appended(
                    header_map_entries(*old(headers)),
                    "set-cookie"@,
                    set_cookie_values(encoding, cookie_views(delta@)).take(i as int),
                ));
                return Err(SetCookieError.into_error());
            },
        }
        proof {
            assert(values.take(i + 1) =~= values.take(i as int).push(values[i as int]));
            lemma_with_appended_push(start, "set-cookie"@, values.take(i as int), values[i as int]);
        }
        i += 1;
    }
    assert(values.take(delta@.len() as int) =~= values);
    Ok(())
}

} // verus!
