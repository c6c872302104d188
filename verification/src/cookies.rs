//! Cookies of incoming requests, and which cross-origin requests may carry
//! credentials.
use vstd::prelude::*;
use crate::error::{api_error, ApiError, ApiErrorCode, StatusCode};
use crate::text::push_str;
use crate::urls::{opt_view, parse_url, spec_parse_url};

verus! {

/// The name/value pairs that `cookie::Cookie::split_parse_encoded` reads
/// from a `Cookie` header: one item per pair, `None` where a pair does not
/// parse.
pub uninterp spec fn spec_split_cookies(header: Seq<char>) -> Seq<Option<(Seq<char>, Seq<char>)>>;

/// The texts of parsed cookie items.
pub open spec fn item_texts(items: Seq<Option<(String, String)>>) -> Seq<Option<(Seq<char>, Seq<char>)>> {
    items.map_values(
        |x: Option<(String, String)>|
            match x {
                Some(p) => Some((p.0@, p.1@)),
                None => None,
            },
    )
}

/// Splits a `Cookie` header with `cookie::Cookie::split_parse_encoded`,
/// which splits on `;`, skips pieces that are only whitespace, trims the
/// rest and reads each as a percent-encoded `name=value` pair. The items
/// are named `spec_split_cookies` of the header; nothing more is claimed of
/// them.
#[verifier::external_body]
fn split_cookies(header: &str) -> (r: Vec<Option<(String, String)>>)
    ensures
        item_texts(r@) == spec_split_cookies(header@),
{
    cookie::Cookie::split_parse_encoded(header).map(|c| match c {
        Ok(c) => Some((c.name().to_owned(), c.value().to_owned())),
        Err(_) => None,
    }).collect()
}

pub open spec fn header_not_text() -> ApiError {
    api_error(StatusCode::BadRequest, ApiErrorCode::Cookie, "cookie header is not a valid string")
}

pub open spec fn invalid_cookie_header() -> ApiError {
    api_error(StatusCode::BadRequest, ApiErrorCode::Cookie, "invalid cookie header")
}

/// The pairs parsed items give, or the error for the first item that did
/// not parse.
pub open spec fn pairs_of(items: Seq<Option<(Seq<char>, Seq<char>)>>) -> Result<Seq<(Seq<char>, Seq<char>)>, ApiError>
    decreases items.len(),
{
    if items.len() == 0 {
        Ok(Seq::empty())
    } else {
        match pairs_of(items.drop_last()) {
            Err(e) => Err(e),
            Ok(acc) => match items.last() {
                Some(p) => Ok(acc.push(p)),
                None => Err(invalid_cookie_header()),
            },
        }
    }
}

/// The cookies of a request's `Cookie` headers, in order, or the error for
/// the first header that is not text or holds a pair that does not parse.
/// A header is `None` when it is not valid text.
pub open spec fn request_cookies(headers: Seq<Option<Seq<char>>>) -> Result<Seq<(Seq<char>, Seq<char>)>, ApiError>
    decreases headers.len(),
{
    if headers.len() == 0 {
        Ok(Seq::empty())
    } else {
        match request_cookies(headers.drop_last()) {
            Err(e) => Err(e),
            Ok(acc) => match headers.last() {
                None => Err(header_not_text()),
                Some(h) => match pairs_of(spec_split_cookies(h)) {
                    Err(e) => Err(e),
                    Ok(ps) => Ok(acc + ps),
                },
            },
        }
    }
}

/// The texts of cookie pairs.
pub open spec fn pair_texts(pairs: Seq<(String, String)>) -> Seq<(Seq<char>, Seq<char>)> {
    pairs.map_values(|p: (String, String)| (p.0@, p.1@))
}

/// The texts of the headers of a request.
pub open spec fn header_texts(headers: Seq<Option<String>>) -> Seq<Option<Seq<char>>> {
    headers.map_values(
        |h: Option<String>|
            match h {
                Some(t) => Some(t@),
                None => None,
            },
    )
}

/// The middleware that reads the cookies of each request.
#[derive(Clone, Copy, Debug, Default)]
pub struct CookieMiddleware;

/// The middleware at work in front of an inner service.
#[derive(Clone, Debug)]
pub struct CookieMiddlewareService<S> {
    pub inner: S,
}

impl CookieMiddleware {
    /// Puts the middleware in front of a service.
    pub fn layer<S>(&self, inner: S) -> (r: CookieMiddlewareService<S>)
        ensures
            r.inner == inner,
    {
        CookieMiddlewareService { inner }
    }
}

impl<S> CookieMiddlewareService<S> {
    /// Appends the pairs of parsed items to `jar`, or gives the error for
    /// the first item that did not parse.
    pub fn add_items(jar: &mut Vec<(String, String)>, items: Vec<Option<(String, String)>>) -> (r: Result<(), ApiError>)
        ensures
            match pairs_of(item_texts(items@)) {
                Ok(ps) => r is Ok && pair_texts(final(jar)@) == pair_texts(old(jar)@) + ps,
                Err(e) => r == Err::<(), ApiError>(e),
            },
    {
        let ghost start = pair_texts(jar@);
        let mut i: usize = 0;
        while i < items.len()
            invariant
                i <= items@.len(),
                pairs_of(item_texts(items@.subrange(0, i as int))) matches Ok(ps) && pair_texts(jar@) == start + ps,
            decreases items@.len() - i,
        {
            let ghost pre = items@.subrange(0, i + 1);
            assert(item_texts(pre).drop_last() =~= item_texts(items@.subrange(0, i as int)));
            match &items[i] {
                Some(p) => {
                    let ghost before = jar@;
                    jar.push((p.0.clone(), p.1.clone()));
                    assert(pair_texts(jar@) =~= pair_texts(before).push((p.0@, p.1@)));
                },
                None => {
                    proof {
                        assert(item_texts(items@).subrange(0, i + 1) =~= item_texts(pre));
                        assert(item_texts(pre).last() is None);
                        lemma_pairs_of_error_stays(item_texts(items@), i + 1);
                    }
                    return Err(ApiError::bad_request(ApiErrorCode::Cookie, "invalid cookie header"));
                },
            }
            i = i + 1;
        }
        assert(items@.subrange(0, items@.len() as int) =~= items@);
        Ok(())
    }

    /// The cookies of a request, from its `Cookie` headers in order; a
    /// header is `None` when it is not valid text.
    pub fn read_cookies(headers: &Vec<Option<String>>) -> (r: Result<Vec<(String, String)>, ApiError>)
        ensures
            match request_cookies(header_texts(headers@)) {
                Ok(ps) => r matches Ok(v) && pair_texts(v@) == ps,
                Err(e) => r == Err::<Vec<(String, String)>, ApiError>(e),
            },
    {
        let mut jar: Vec<(String, String)> = Vec::new();
        let mut i: usize = 0;
        while i < headers.len()
            invariant
                i <= headers@.len(),
                request_cookies(header_texts(headers@.subrange(0, i as int))) matches Ok(ps) && pair_texts(jar@) == ps,
            decreases headers@.len() - i,
        {
            let ghost pre = headers@.subrange(0, i + 1);
            assert(header_texts(pre).drop_last() =~= header_texts(headers@.subrange(0, i as int)));
            match &headers[i] {
                None => {
                    proof {
                        assert(header_texts(headers@).subrange(0, i + 1) =~= header_texts(pre));
                        assert(header_texts(pre).last() is None);
                        lemma_request_cookies_error_stays(header_texts(headers@), i + 1);
                    }
                    return Err(ApiError::bad_request(ApiErrorCode::Cookie, "cookie header is not a valid string"));
                },
                Some(h) => {
                    let items = split_cookies(h.as_str());
                    match Self::add_items(&mut jar, items) {
                        Ok(()) => {},
                        Err(e) => {
                            proof {
                                assert(header_texts(headers@).subrange(0, i + 1) =~= header_texts(pre));
                                assert(header_texts(pre).last() == Some(h@));
                                lemma_request_cookies_error_stays(header_texts(headers@), i + 1);
                            }
                            return Err(e);
                        },
                    }
                },
            }
            i = i + 1;
        }
        assert(headers@.subrange(0, headers@.len() as int) =~= headers@);
        Ok(jar)
    }
}

/// Once some prefix of the items gives an error, the whole list gives it.
proof fn lemma_pairs_of_error_stays(items: Seq<Option<(Seq<char>, Seq<char>)>>, k: int)
    requires
        0 <= k <= items.len(),
        pairs_of(items.subrange(0, k)) is Err,
    ensures
        pairs_of(items) == pairs_of(items.subrange(0, k)),
    decreases items.len() - k,
{
    if k < items.len() {
        let next = items.subrange(0, k + 1);
        assert(next.drop_last() =~= items.subrange(0, k));
        lemma_pairs_of_error_stays(items, k + 1);
    } else {
        assert(items.subrange(0, k) =~= items);
    }
}

/// Once some prefix of the headers gives an error, all of them give it.
proof fn lemma_request_cookies_error_stays(headers: Seq<Option<Seq<char>>>, k: int)
    requires
        0 <= k <= headers.len(),
        request_cookies(headers.subrange(0, k)) is Err,
    ensures
        request_cookies(headers) == request_cookies(headers.subrange(0, k)),
    decreases headers.len() - k,
{
    if k < headers.len() {
        let next = headers.subrange(0, k + 1);
        assert(next.drop_last() =~= headers.subrange(0, k));
        lemma_request_cookies_error_stays(headers, k + 1);
    } else {
        assert(headers.subrange(0, k) =~= headers);
    }
}

/// The domain the API's cookies are set for: the API's domain and every
/// domain below it.
pub fn cookie_domain(domain: &str) -> (r: String)
    ensures
        r@ == "."@ + domain@,
{
    let mut v: Vec<char> = Vec::new();
    push_str(&mut v, ".");
    push_str(&mut v, domain);
    crate::text::string_of(&v)
}

/// The ASCII serialization of the origin of a URL text, when the text
/// parses and its origin is a scheme, host and port.
pub open spec fn spec_tuple_origin(url: Seq<char>) -> Option<Seq<char>> {
    match spec_parse_url(url) {
        Some((_, origin)) => origin,
        None => None,
    }
}

/// The tuple origin of a URL text, if it has one.
fn tuple_origin(url: &str) -> (r: Option<String>)
    ensures
        opt_view(r) == spec_tuple_origin(url@),
{
    match parse_url(url) {
        Some((_, origin)) => origin,
        None => None,
    }
}

/// Whether a cross-origin request from `origin` may carry credentials: its
/// origin must be the origin of one of the allowed URLs. `origin` is `None`
/// when the request's `Origin` header is not valid text.
pub open spec fn credentials_allowed(allowed: Seq<String>, origin: Option<Seq<char>>) -> bool {
    origin matches Some(o) && spec_tuple_origin(o) matches Some(t) && exists|i: int|
        0 <= i < allowed.len() && spec_tuple_origin(#[trigger] allowed[i]@) == Some(t)
}

/// Whether a cross-origin request may carry credentials.
pub fn allow_credentials(allowed: &Vec<String>, origin: Option<&str>) -> (r: bool)
    ensures
        r == credentials_allowed(allowed@, match origin {
            Some(o) => Some(o@),
            None => None,
        }),
{
    let o = match origin {
        Some(o) => o,
        None => {
            return false;
        },
    };
    let t = match tuple_origin(o) {
        Some(t) => t,
        None => {
            return false;
        },
    };
    let mut i: usize = 0;
    while i < allowed.len()
        invariant
            i <= allowed@.len(),
            origin == Some(o),
            spec_tuple_origin(o@) == Some(t@),
            forall|j: int| 0 <= j < i ==> spec_tuple_origin(#[trigger] allowed@[j]@) != Some(t@),
        decreases allowed@.len() - i,
    {
        match tuple_origin(allowed[i].as_str()) {
            Some(a) => {
                if a == t {
                    assert(spec_tuple_origin(allowed@[i as int]@) == Some(t@));
                    return true;
                }
            },
            None => {},
        }
        i = i + 1;
    }
    false
}

} // verus!
