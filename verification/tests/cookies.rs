use via::builtin::cookies::{percent_decode, unencoded, Codec, CookieParser};
use via::cookies::{
    encode_set_cookie_header, set_cookie_headers, set_cookie_value, CookieFields, Cookies,
    SameSitePolicy, UriEncoding, EXPIRES_MAX, EXPIRES_MIN,
};
use via::error::Error;
use cookie::time::{Date, PrimitiveDateTime, Time, UtcOffset};

#[test]
fn cookies_parse_header_rejects_a_bad_cookie() {
    let cookies = Cookies::new();
    let error = cookies.parse_header(Some("a=1; =bad; b=2")).unwrap_err();
    assert_eq!(error.status().as_u16(), 400);
    assert_eq!(error.to_string(), "the cookie's name is empty");
    let error = cookies.parse_header(Some("novalue")).unwrap_err();
    assert_eq!(error.status().as_u16(), 400);
    let error = Cookies::percent_decode().parse_header(Some("a=1; novalue")).unwrap_err();
    assert_eq!(error.status().as_u16(), 400);
}

#[test]
fn cookies_parse_header_keeps_every_cookie_in_order() {
    let parsed = Cookies::new().parse_header(Some("a=1; b=2")).unwrap();
    assert_eq!(
        parsed,
        vec![("a".to_string(), "1".to_string()), ("b".to_string(), "2".to_string())]
    );
}

#[test]
fn cookies_without_a_header_parse_nothing() {
    assert!(Cookies::new().parse_header(None).unwrap().is_empty());
    assert!(Cookies::percent_decode().parse_header(None).unwrap().is_empty());
}

#[test]
fn cookies_percent_decode_decodes_values() {
    let parsed = Cookies::percent_decode().parse_header(Some("name=hello%20world")).unwrap();
    assert_eq!(parsed, vec![("name".to_string(), "hello world".to_string())]);

    let raw = Cookies::new().parse_header(Some("name=hello%20world")).unwrap();
    assert_eq!(raw, vec![("name".to_string(), "hello%20world".to_string())]);
}

#[test]
fn cookies_constructors_pick_the_encoding() {
    assert_eq!(Cookies::new().encoding(), UriEncoding::Unencoded);
    assert_eq!(Cookies::percent_decode().encoding(), UriEncoding::Percent);
}

#[test]
fn set_cookie_header_is_refused_for_control_characters() {
    assert!(set_cookie_value("session=abc; Path=/").is_ok());
    let error = set_cookie_value("session=a\u{1}b").unwrap_err();
    assert_eq!(
        error.to_string(),
        "An error occurred while writing a Set-Cookie header to a response."
    );
    let response = error.into_error();
    assert_eq!(response.status().as_u16(), 500);
}

#[test]
fn set_cookie_header_from_a_cookie() {
    let cookie = CookieFields::new("name".to_string(), "hello world".to_string());
    let plain = encode_set_cookie_header(UriEncoding::Unencoded, &cookie).unwrap();
    assert_eq!(plain.to_str().unwrap(), "name=hello world");
    let encoded = encode_set_cookie_header(UriEncoding::Percent, &cookie).unwrap();
    assert_eq!(encoded.to_str().unwrap(), "name=hello%20world");
}

#[test]
fn cookie_parser_fails_on_the_first_bad_cookie() {
    let parser: CookieParser = unencoded();
    assert_eq!(parser.codec(), Codec::Unencoded);
    let error = parser.parse_header(Ok(Some("a=1; =bad; b=2"))).unwrap_err();
    assert_eq!(error.status().as_u16(), 400);
    assert_eq!(error.to_string(), "the cookie's name is empty");
}

#[test]
fn cookie_parser_reads_all_cookies() {
    let parser = percent_decode();
    assert_eq!(parser.codec(), Codec::PercentEncoded);
    let cookies = parser.parse_header(Ok(Some("a=%41; b=2"))).unwrap();
    assert_eq!(
        cookies,
        vec![("a".to_string(), "A".to_string()), ("b".to_string(), "2".to_string())]
    );
    assert!(parser.parse_header(Ok(None)).unwrap().is_empty());
}

#[test]
fn cookie_parser_passes_a_lookup_error_on() {
    let parser = unencoded();
    let failed = parser.parse_header(Err(Error::bad_request("not text".to_string())));
    let error = failed.unwrap_err();
    assert_eq!(error.status().as_u16(), 400);
    assert_eq!(error.to_string(), "not text");
}

#[test]
fn cookies_and_cookie_parser_agree() {
    let header = "a=1; b=two; c=%33";
    let strict = unencoded().parse_header(Ok(Some(header))).unwrap();
    let lenient = Cookies::new().parse_header(Some(header)).unwrap();
    assert_eq!(strict, lenient);
    let strict = percent_decode().parse_header(Ok(Some(header))).unwrap();
    let lenient = Cookies::percent_decode().parse_header(Some(header)).unwrap();
    assert_eq!(strict, lenient);
}

#[test]
fn cookie_parser_serializes_by_codec() {
    let cookie = CookieFields::new("k".to_string(), "a b".to_string());
    assert_eq!(unencoded().serialize(&cookie), "k=a b");
    assert_eq!(percent_decode().serialize(&cookie), "k=a%20b");
}

fn session_cookie() -> CookieFields {
    let mut cookie = CookieFields::new("session id".to_string(), "a;b".to_string());
    cookie.http_only = Some(true);
    cookie.same_site = Some(SameSitePolicy::Strict);
    cookie.secure = Some(true);
    cookie.path = Some("/".to_string());
    cookie.domain = Some("example.com".to_string());
    cookie.max_age = Some(60);
    cookie.expires = Some(0);
    cookie
}

#[test]
fn cookie_parser_serializes_the_attributes() {
    let cookie = session_cookie();
    assert_eq!(
        unencoded().serialize(&cookie),
        "session id=a;b; HttpOnly; SameSite=Strict; Secure; Path=/; Domain=example.com; \
         Max-Age=60; Expires=Thu, 01 Jan 1970 00:00:00 GMT"
    );
    assert_eq!(
        percent_decode().serialize(&cookie),
        "session%20id=a%3Bb; HttpOnly; SameSite=Strict; Secure; Path=/; Domain=example.com; \
         Max-Age=60; Expires=Thu, 01 Jan 1970 00:00:00 GMT"
    );
    let mut lax = CookieFields::new("k".to_string(), "v".to_string());
    lax.same_site = Some(SameSitePolicy::Unrestricted);
    assert_eq!(unencoded().serialize(&lax), "k=v; SameSite=None; Secure");
}

#[test]
fn cookie_expiry_bounds_are_the_ends_of_the_supported_years() {
    let mut cookie = CookieFields::new("k".to_string(), "v".to_string());
    cookie.expires = Some(EXPIRES_MAX);
    assert_eq!(
        unencoded().serialize(&cookie),
        "k=v; Expires=Fri, 31 Dec 9999 23:59:59 GMT"
    );
    cookie.expires = Some(EXPIRES_MIN);
    assert!(unencoded().serialize(&cookie).ends_with("01 Jan -9999 00:00:00 GMT"));
}

fn set_cookie_values(headers: &http::HeaderMap) -> Vec<String> {
    headers
        .get_all(http::header::SET_COOKIE)
        .iter()
        .map(|value| value.to_str().unwrap().to_string())
        .collect()
}

#[test]
fn set_cookie_headers_appends_one_value_per_cookie() {
    let mut headers = http::HeaderMap::new();
    headers.append(http::header::SET_COOKIE, http::HeaderValue::from_static("x=1"));
    let delta = vec![
        CookieFields::new("a".to_string(), "one two".to_string()),
        CookieFields::new("b".to_string(), "2".to_string()),
    ];
    set_cookie_headers(UriEncoding::Unencoded, &delta, &mut headers).unwrap();
    assert_eq!(set_cookie_values(&headers), vec!["x=1", "a=one two", "b=2"]);

    let mut headers = http::HeaderMap::new();
    set_cookie_headers(UriEncoding::Percent, &delta, &mut headers).unwrap();
    assert_eq!(set_cookie_values(&headers), vec!["a=one%20two", "b=2"]);

    let mut headers = http::HeaderMap::new();
    set_cookie_headers(UriEncoding::Percent, &Vec::new(), &mut headers).unwrap();
    assert!(headers.is_empty());
}

#[test]
fn set_cookie_headers_fails_on_an_unwritable_cookie() {
    let mut headers = http::HeaderMap::new();
    let delta = vec![
        CookieFields::new("a".to_string(), "1".to_string()),
        CookieFields::new("b".to_string(), "x\ny".to_string()),
        CookieFields::new("c".to_string(), "3".to_string()),
    ];
    let error = set_cookie_headers(UriEncoding::Unencoded, &delta, &mut headers).unwrap_err();
    assert_eq!(error.status().as_u16(), 500);
    assert_eq!(
        error.to_string(),
        "An error occurred while writing a Set-Cookie header to a response."
    );
    assert_eq!(set_cookie_values(&headers), vec!["a=1"]);

    let mut headers = http::HeaderMap::new();
    set_cookie_headers(UriEncoding::Percent, &delta, &mut headers).unwrap();
    assert_eq!(set_cookie_values(&headers), vec!["a=1", "b=x%0Ay", "c=3"]);
}

#[test]
fn write_set_cookies_writes_the_delta_of_the_jar() {
    let mut jar = cookie::CookieJar::new();
    jar.add(cookie::Cookie::new("a", "1 2"));
    let mut headers = http::HeaderMap::new();
    let originals = vec![("b".to_string(), "2".to_string())];
    let result = Cookies::percent_decode().write_set_cookies(originals, &mut jar, &mut headers);
    assert!(matches!(result, Some(Ok(()))));
    assert_eq!(set_cookie_values(&headers), vec!["a=1%202"]);
    assert_eq!(jar.delta().count(), 1);
    assert_eq!(jar.get("b").unwrap().value(), "2");

    let mut jar = cookie::CookieJar::new();
    jar.add(cookie::Cookie::new("a", "1 2"));
    let mut headers = http::HeaderMap::new();
    let result = Cookies::new().write_set_cookies(Vec::new(), &mut jar, &mut headers);
    assert!(matches!(result, Some(Ok(()))));
    assert_eq!(set_cookie_values(&headers), vec!["a=1 2"]);
}

#[test]
fn write_set_cookies_writes_removals() {
    let mut jar = cookie::CookieJar::new();
    let originals = vec![("gone".to_string(), "x".to_string())];
    for (name, value) in &originals {
        jar.add_original(cookie::Cookie::new(name.clone(), value.clone()));
    }
    jar.remove(cookie::Cookie::from("gone"));
    let mut headers = http::HeaderMap::new();
    let result = Cookies::new().write_set_cookies(originals, &mut jar, &mut headers);
    assert!(matches!(result, Some(Ok(()))));
    let values = set_cookie_values(&headers);
    assert_eq!(values.len(), 1);
    assert!(values[0].starts_with("gone=; Max-Age=0; Expires="));
}

#[test]
fn write_set_cookies_fails_on_an_unwritable_cookie() {
    let mut jar = cookie::CookieJar::new();
    jar.add(cookie::Cookie::new("bad", "x\ny"));
    let mut headers = http::HeaderMap::new();
    let result = Cookies::new().write_set_cookies(Vec::new(), &mut jar, &mut headers);
    let error = result.unwrap().unwrap_err();
    assert_eq!(error.status().as_u16(), 500);
    assert!(headers.is_empty());
}

#[test]
fn write_set_cookies_declines_an_expiry_out_of_range() {
    let early = PrimitiveDateTime::new(Date::MIN, Time::from_hms(0, 30, 0).unwrap())
        .assume_offset(UtcOffset::from_hms(1, 0, 0).unwrap());
    let mut jar = cookie::CookieJar::new();
    let mut cookie = cookie::Cookie::new("early", "1");
    cookie.set_expires(early);
    jar.add(cookie);
    let mut headers = http::HeaderMap::new();
    let result = Cookies::new().write_set_cookies(Vec::new(), &mut jar, &mut headers);
    assert!(result.is_none());
    assert!(headers.is_empty());
}

#[test]
fn read_request_cookies_fills_the_jar_with_originals() {
    let mut jar = cookie::CookieJar::new();
    let pairs = Cookies::percent_decode()
        .read_request_cookies(Some("a=1; b=x%20y; a=3"), &mut jar)
        .unwrap();
    assert_eq!(pairs.len(), 3);
    assert_eq!(jar.get("a").unwrap().value(), "3");
    assert_eq!(jar.get("b").unwrap().value(), "x y");
    assert_eq!(jar.delta().count(), 0);

    let mut jar = cookie::CookieJar::new();
    let error = Cookies::new().read_request_cookies(Some("a=1; novalue"), &mut jar).unwrap_err();
    assert_eq!(error.status().as_u16(), 400);
    assert!(jar.get("a").is_none());
}
