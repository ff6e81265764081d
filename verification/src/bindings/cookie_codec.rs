use vstd::multiset::Multiset;
use vstd::prelude::*;

use crate::cookies::{cookie_views, CookieFields, CookieView, SameSitePolicy};
use cookie::time::{Duration, OffsetDateTime};
use cookie::{Cookie, CookieJar, SameSite};

verus! {

/// A cookie parsed from a `Cookie` header, as its name and value, or the
/// text of the parse error.
pub type ParsedCookie = Result<(String, String), String>;

/// The view of a parsed cookie.
pub open spec fn parsed_view(p: ParsedCookie) -> Result<(Seq<char>, Seq<char>), Seq<char>> {
    match p {
        Ok((name, value)) => Ok((name@, value@)),
        Err(e) => Err(e@),
    }
}

/// The views of a list of parsed cookies.
pub open spec fn parsed_views(s: Seq<ParsedCookie>) -> Seq<Result<(Seq<char>, Seq<char>), Seq<char>>> {
    s.map_values(|p: ParsedCookie| parsed_view(p))
}

/// What `cookie::Cookie::split_parse` yields for a header: for each
/// `;`-separated piece that is not blank, the cookie's name and value, or
/// the text of the parse error.
pub uninterp spec fn split_parse_of(input: Seq<char>) -> Seq<Result<(Seq<char>, Seq<char>), Seq<char>>>;

/// What `cookie::Cookie::split_parse_encoded` yields for a header: as
/// `split_parse`, with names and values percent-decoded.
pub uninterp spec fn split_parse_encoded_of(input: Seq<char>) -> Seq<
    Result<(Seq<char>, Seq<char>), Seq<char>>,
>;

/// Calls `cookie::Cookie::split_parse` and collects each result as the
/// cookie's name and value or the error's text.
#[verifier::external_body]
pub fn split_parse(input: &str) -> (r: Vec<ParsedCookie>)
    ensures
        parsed_views(r@) == split_parse_of(input@),
{
    cookie::Cookie::split_parse(input.to_owned())
        .map(|result| match result {
            Ok(c) => Ok((c.name().to_owned(), c.value().to_owned())),
            Err(e) => Err(e.to_string()),
        })
        .collect()
}

/// Calls `cookie::Cookie::split_parse_encoded` and collects each result as
/// the cookie's name and value or the error's text.
#[verifier::external_body]
pub fn split_parse_encoded(input: &str) -> (r: Vec<ParsedCookie>)
    ensures
        parsed_views(r@) == split_parse_encoded_of(input@),
{
    cookie::Cookie::split_parse_encoded(input.to_owned())
        .map(|result| match result {
            Ok(c) => Ok((c.name().to_owned(), c.value().to_owned())),
            Err(e) => Err(e.to_string()),
        })
        .collect()
}

/// The `Set-Cookie` text that `Display` of `cookie::Cookie` writes for a
/// cookie with the given fields: name and value as they are, then the
/// attributes.
pub uninterp spec fn cookie_text_of(c: CookieView) -> Seq<char>;

/// The `Set-Cookie` text that `Display` of `cookie::Cookie::encoded` writes
/// for a cookie with the given fields: name and value percent-encoded, then
/// the attributes.
pub uninterp spec fn encoded_cookie_text_of(c: CookieView) -> Seq<char>;

/// Builds a `cookie::Cookie` from the fields and calls `Display` on it: its
/// `Set-Cookie` form, unencoded. The text is a function of the fields alone.
#[verifier::external_body]
pub fn cookie_to_string(c: &CookieFields) -> (r: String)
    requires
        c.expires_in_range(),
    ensures
        r@ == cookie_text_of(c@),
{
    let mut k = Cookie::new(c.name.clone(), c.value.clone());
    k.set_http_only(c.http_only);
    k.set_secure(c.secure);
    k.set_partitioned(c.partitioned);
    k.set_same_site(c.same_site.map(|p| match p {
        SameSitePolicy::Strict => SameSite::Strict,
        SameSitePolicy::Lax => SameSite::Lax,
        SameSitePolicy::Unrestricted => SameSite::None,
    }));
    k.set_max_age(c.max_age.map(Duration::seconds));
    k.set_expires(c.expires.map(|t| OffsetDateTime::from_unix_timestamp(t).unwrap()));
    if let Some(p) = &c.path { k.set_path(p.clone()); }
    if let Some(d) = &c.domain { k.set_domain(d.clone()); }
    k.to_string()
}

/// Builds a `cookie::Cookie` from the fields and calls `Display` on
/// `encoded()` of it: its `Set-Cookie` form with name and value
/// percent-encoded. The text is a function of the fields alone.
#[verifier::external_body]
pub fn cookie_to_encoded_string(c: &CookieFields) -> (r: String)
    requires
        c.expires_in_range(),
    ensures
        r@ == encoded_cookie_text_of(c@),
{
    let mut k = Cookie::new(c.name.clone(), c.value.clone());
    k.set_http_only(c.http_only);
    k.set_secure(c.secure);
    k.set_partitioned(c.partitioned);
    k.set_same_site(c.same_site.map(|p| match p {
        SameSitePolicy::Strict => SameSite::Strict,
        SameSitePolicy::Lax => SameSite::Lax,
        SameSitePolicy::Unrestricted => SameSite::None,
    }));
    k.set_max_age(c.max_age.map(Duration::seconds));
    k.set_expires(c.expires.map(|t| OffsetDateTime::from_unix_timestamp(t).unwrap()));
    if let Some(p) = &c.path { k.set_path(p.clone()); }
    if let Some(d) = &c.domain { k.set_domain(d.clone()); }
    k.encoded().to_string()
}

/// `cookie::CookieJar`, the cookies of a request and those that the
/// response adds, changes or removes.
#[verifier::external_type_specification]
#[verifier::external_body]
pub struct ExCookieJar(cookie::CookieJar);

/// The delta of a jar: the cookies that were added to it or removed from
/// it (a removal as the cookie that expires it), each as the fields that
/// its `Set-Cookie` text is written from.
pub uninterp spec fn jar_delta(jar: cookie::CookieJar) -> Multiset<CookieView>;

/// The original cookies of a jar, those that the request carried: the
/// value of each by its name.
pub uninterp spec fn jar_originals(jar: cookie::CookieJar) -> Map<Seq<char>, Seq<char>>;

/// Calls `cookie::CookieJar::add_original` with a cookie of the given name
/// and value, which replaces an original of that name. Originals are kept
/// apart from the delta, which stays as it was.
#[verifier::external_body]
pub fn jar_add_original(jar: &mut CookieJar, name: String, value: String)
    ensures
        jar_delta(*final(jar)) == jar_delta(*old(jar)),
        jar_originals(*final(jar)) == jar_originals(*old(jar)).insert(name@, value@),
{
    jar.add_original(Cookie::new(name, value))
}

/// Calls `cookie::CookieJar::delta` and collects the fields of each cookie.
/// The jar walks a hash set, so the order of the cookies is not stated.
#[verifier::external_body]
pub fn jar_delta_fields(jar: &CookieJar) -> (r: Vec<CookieFields>)
    ensures
        cookie_views(r@).to_multiset() == jar_delta(*jar),
{
    jar.delta().map(|c| CookieFields {
        name: c.name().to_owned(), value: c.value().to_owned(), http_only: c.http_only(),
        secure: c.secure(), partitioned: c.partitioned(), same_site: c.same_site().map(|s| match s {
            SameSite::Strict => SameSitePolicy::Strict,
            SameSite::Lax => SameSitePolicy::Lax,
            SameSite::None => SameSitePolicy::Unrestricted,
        }),
        path: c.path().map(str::to_owned), domain: c.domain().map(str::to_owned),
        max_age: c.max_age().map(|d| d.whole_seconds()),
        expires: c.expires_datetime().map(|t| t.unix_timestamp()),
    }).collect()
}

} // verus!
