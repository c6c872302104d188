//! URLs as the `url` crate reads them.
use vstd::prelude::*;

verus! {

/// What the `url` crate makes of a text: `None` when it does not parse as
/// a URL; else the URL's serialization, and the ASCII serialization of its
/// origin when that origin is a tuple of scheme, host and port (`None` for
/// an opaque origin).
pub uninterp spec fn spec_parse_url(text: Seq<char>) -> Option<(Seq<char>, Option<Seq<char>>)>;

/// The view of an optional text.
pub open spec fn opt_view(t: Option<String>) -> Option<Seq<char>> {
    match t {
        Some(s) => Some(s@),
        None => None,
    }
}

/// Parses a text with `url::Url::parse`. On success it gives the parsed
/// URL's serialization (`as_str`) and, when `origin()` is a tuple origin,
/// that origin's `ascii_serialization()`; an opaque origin gives `None`
/// there. Both results are named `spec_parse_url` of the text: nothing more
/// is claimed of them. Two tuple origins are equal exactly when their
/// serializations are.
#[verifier::external_body]
pub(crate) fn parse_url(text: &str) -> (r: Option<(String, Option<String>)>)
    ensures
        match r {
            Some((href, origin)) => spec_parse_url(text@) == Some((href@, opt_view(origin))),
            None => spec_parse_url(text@) is None,
        },
{
    match url::Url::parse(text) {
        Ok(u) => {
            let origin = match u.origin() {
                o @ url::Origin::Tuple(..) => Some(o.ascii_serialization()),
                url::Origin::Opaque(_) => None,
            };
            Some((u.as_str().to_string(), origin))
        },
        Err(_) => None,
    }
}

} // verus!
