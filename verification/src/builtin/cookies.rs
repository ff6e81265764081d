//! Middleware that parses the `Cookie` header of requests strictly.

use vstd::prelude::*;

use crate::bindings::cookie_codec::{
    cookie_text_of, cookie_to_encoded_string, cookie_to_string, encoded_cookie_text_of, parsed_view,
    parsed_views, split_parse, split_parse_encoded, split_parse_encoded_of, split_parse_of,
    ParsedCookie,
};
use crate::cookies::CookieFields;
use crate::error::{Error, ErrorView};

verus! {

/// Parses request cookies, failing on the first cookie that does not parse.
#[derive(Debug)]
pub struct CookieParser(Codec);

/// How the names and values of cookies are encoded.
#[derive(Clone, Copy, Debug, PartialEq, Eq)]
pub enum Codec {
    PercentEncoded,
    Unencoded,
}

/// A parser for percent-encoded cookies.
pub fn percent_decode() -> (r: CookieParser)
    ensures
        r.spec_codec() == Codec::PercentEncoded,
{
    CookieParser(Codec::PercentEncoded)
}

/// A parser for unencoded cookies.
pub fn unencoded() -> (r: CookieParser)
    ensures
        r.spec_codec() == Codec::Unencoded,
{
    CookieParser(Codec::Unencoded)
}

/// What the cookie crate yields for a header under a codec.
pub open spec fn parse_of(codec: Codec, input: Seq<char>) -> Seq<
    Result<(Seq<char>, Seq<char>), Seq<char>>,
> {
    match codec {
        Codec::PercentEncoded => split_parse_encoded_of(input),
        Codec::Unencoded => split_parse_of(input),
    }
}

/// All results are cookies.
pub open spec fn all_parsed(s: Seq<Result<(Seq<char>, Seq<char>), Seq<char>>>) -> bool {
    forall|i: int| 0 <= i < s.len() ==> #[trigger] s[i] is Ok
}

/// The index of the first result that is an error.
pub open spec fn first_error(s: Seq<Result<(Seq<char>, Seq<char>), Seq<char>>>, i: int) -> bool {
    &&& 0 <= i < s.len()
    &&& s[i] is Err
    &&& forall|j: int| 0 <= j < i ==> #[trigger] s[j] is Ok
}

/// The cookie of a result that parsed.
pub open spec fn ok_pair(p: Result<(Seq<char>, Seq<char>), Seq<char>>) -> (Seq<char>, Seq<char>) {
    match p {
        Ok(pair) => pair,
        Err(_) => (Seq::empty(), Seq::empty()),
    }
}

/// The error text of a result that failed.
pub open spec fn err_text(p: Result<(Seq<char>, Seq<char>), Seq<char>>) -> Seq<char> {
    match p {
        Ok(_) => Seq::empty(),
        Err(e) => e,
    }
}

/// The views of a list of cookies.
pub open spec fn pairs_view(v: Seq<(String, String)>) -> Seq<(Seq<char>, Seq<char>)> {
    v.map_values(|p: (String, String)| (p.0@, p.1@))
}

impl CookieParser {
    /// The codec of the parser.
    pub closed spec fn spec_codec(&self) -> Codec {
        self.0
    }

    /// The codec of the parser.
    pub fn codec(&self) -> (r: Codec)
        ensures
            r == self.spec_codec(),
    {
        self.0
    }

    /// The `Set-Cookie` form of a cookie of the response under the codec of
    /// the parser: with name and value percent-encoded, or as they are. The
    /// text is written by the `cookie` crate.
    pub fn serialize(&self, cookie: &CookieFields) -> (r: String)
        requires
            cookie.expires_in_range(),
        ensures
            r@ == match self.spec_codec() {
                Codec::PercentEncoded => encoded_cookie_text_of(cookie@),
                Codec::Unencoded => cookie_text_of(cookie@),
            },
    {
        match self.0 {
            Codec::PercentEncoded => cookie_to_encoded_string(cookie),
            Codec::Unencoded => cookie_to_string(cookie),
        }
    }

    /// Parses a `Cookie` header with the codec of the parser.
    pub fn parse(&self, input: &str) -> (r: Vec<ParsedCookie>)
        ensures
            parsed_views(r@) == parse_of(self.spec_codec(), input@),
    {
        match self.0 {
            Codec::PercentEncoded => split_parse_encoded(input),
            Codec::Unencoded => split_parse(input),
        }
    }

    /// The cookies of a request, from its `Cookie` header looked up as text.
    /// A failed lookup is returned as it is; no header gives no cookies; a
    /// cookie that does not parse fails the request with `400 Bad Request`
    /// and the parse error's text.
    pub fn parse_header(&self, header: Result<Option<&str>, Error>) -> (r: Result<
        Vec<(String, String)>,
        Error,
    >)
        ensures
            match header {
                Err(e) => r matches Err(x) && x.view() == e.view(),
                Ok(None) => r matches Ok(v) && v@.len() == 0,
                Ok(Some(input)) => {
                    let parsed = parse_of(self.spec_codec(), input@);
                    &&& all_parsed(parsed) ==> (r matches Ok(v) && pairs_view(v@)
                        == parsed.map_values(|p| ok_pair(p)))
                    &&& forall|i: int| #[trigger] first_error(parsed, i) ==> (r matches Err(x)
                        && x.view() == ErrorView {
                        as_json: false,
                        status: 400,
                        error: err_text(parsed[i]),
                        message: None,
                    })
                },
            },
    {
        let input = match header {
            Err(e) => return Err(e),
            Ok(None) => return Ok(Vec::new()),
            Ok(Some(s)) => s,
        };
        let results = self.parse(input);
        let ghost parsed = parse_of(self.spec_codec(), input@);
        let mut existing: Vec<(String, String)> = Vec::new();
        let mut i: usize = 0;
        #[verifier::loop_isolation(false)]
        while i < results.len()
            invariant
                i <= results@.len(),
                parsed == parsed_views(results@),
                forall|j: int| 0 <= j < i ==> #[trigger] parsed[j] is Ok,
                pairs_view(existing@) == parsed.take(i as int).map_values(|p| ok_pair(p)),
            decreases results@.len() - i,
        {
            match &results[i] {
                Err(e) => {
                    assert(parsed[i as int] == parsed_view(results@[i as int]));
                    assert(first_error(parsed, i as int));
                    assert forall|k: int| #[trigger] first_error(parsed, k) implies k == i by {
                        if k < i {
                        } else if k > i {
                            assert(parsed[i as int] is Ok);
                        }
                    }
                    return Err(Error::bad_request(e.clone()));
                },
                Ok((name, value)) => {
                    assert(parsed[i as int] == parsed_view(results@[i as int]));
                    let ghost before = existing@;
                    existing.push((name.clone(), value.clone()));
                    assert(parsed.take(i + 1) =~= parsed.take(i as int).push(parsed[i as int]));
                    assert(parsed.take(i + 1).map_values(|p| ok_pair(p)) =~= parsed.take(
                        i as int,
                    ).map_values(|p| ok_pair(p)).push(ok_pair(parsed[i as int])));
                    assert(pairs_view(existing@) =~= pairs_view(before).push(
                        (existing@[i as int].0@, existing@[i as int].1@),
                    ));
                    assert(pairs_view(existing@) =~= parsed.take(i + 1).map_values(|p| ok_pair(p)));
                },
            }
            i += 1;
        }
        assert(parsed.take(results@.len() as int) =~= parsed);
        Ok(existing)
    }
}

} // verus!
