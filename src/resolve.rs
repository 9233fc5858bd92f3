//! Absolute URLs for API routes, resolved through the `url` crate.
use vstd::prelude::*;
use crate::api_root;

verus! {

/// What `url::Url::parse` makes of a string: its serialization, or nothing
/// where the string is not an absolute URL.
pub uninterp spec fn url_parse(s: Seq<char>) -> Option<Seq<char>>;

/// What `url::Url::join` makes of a route against a base URL: the
/// serialization of the result, or nothing where the route does not resolve.
pub uninterp spec fn url_join(base: Seq<char>, route: Seq<char>) -> Option<Seq<char>>;

/// A character that stands for itself in a URL path.
pub open spec fn is_path_char(c: char) -> bool {
    ||| ('a' <= c && c <= 'z')
    ||| ('A' <= c && c <= 'Z')
    ||| ('0' <= c && c <= '9')
    ||| c == '-'
    ||| c == '_'
    ||| c == '~'
    ||| c == '.'
    ||| c == '/'
}

/// A relative route made of plain path segments: no scheme, query, fragment,
/// percent sign or leading slash, no empty segment, and no segment that
/// starts with a dot (so no `.` or `..`).
pub open spec fn plain_route(p: Seq<char>) -> bool {
    &&& p.len() > 0
    &&& forall|i: int| 0 <= i < p.len() ==> is_path_char(#[trigger] p[i])
    &&& forall|i: int|
        0 <= i < p.len() && #[trigger] p[i] == '/' ==> i > 0 && p[i - 1] != '/'
    &&& forall|i: int|
        0 <= i < p.len() && #[trigger] p[i] == '.' ==> i > 0 && p[i - 1] != '/' && p[i
            - 1] != '.'
}

/// An absolute URL below the API root whose path is a plain route.
pub open spec fn plain_url(u: Seq<char>) -> bool {
    &&& u.len() > api_root().len()
    &&& u.subrange(0, api_root().len() as int) == api_root()
    &&& plain_route(u.subrange(api_root().len() as int, u.len() as int))
}

/// A plain URL that ends in a slash, so that routes resolve below it.
pub open spec fn plain_base(u: Seq<char>) -> bool {
    plain_url(u) && u.last() == '/'
}

/// Relies on `url::Url::parse`, and `String::from(Url)` for the serialization.
/// A plain URL under the API root is already in serialized form.
#[verifier::external_body]
pub(crate) fn parse_url(s: &str) -> (r: Result<String, url::ParseError>)
    ensures
        r is Ok <==> url_parse(s@) is Some,
        r is Ok ==> url_parse(s@) == Some(r->Ok_0@),
        plain_url(s@) ==> (r is Ok && r->Ok_0@ == s@),
{
    url::Url::parse(s).map(String::from)
}

/// Relies on `url::Url::join` (with the base read back by `url::Url::parse`).
/// A plain route below a base that ends in a slash is appended to it, and an
/// absolute plain URL replaces the base.
#[verifier::external_body]
pub(crate) fn join_url(base: &str, route: &str) -> (r: Result<String, url::ParseError>)
    ensures
        r is Ok <==> url_join(base@, route@) is Some,
        r is Ok ==> url_join(base@, route@) == Some(r->Ok_0@),
        plain_base(base@) && plain_route(route@) ==> (r is Ok && r->Ok_0@ == base@ + route@),
        plain_base(base@) && plain_url(route@) ==> (r is Ok && r->Ok_0@ == route@),
{
    url::Url::parse(base)?.join(route).map(String::from)
}

/// A plain route resolved below a plain base is itself a plain URL, so
/// resolving the result once more gives it back unchanged.
pub proof fn lemma_resolved_route_is_plain(base: Seq<char>, route: Seq<char>)
    requires
        plain_base(base),
        plain_route(route),
    ensures
        plain_url(base + route),
{
    let n = api_root().len() as int;
    let u = base + route;
    let bp = base.subrange(n, base.len() as int);
    let up = u.subrange(n, u.len() as int);
    assert(u.subrange(0, n) =~= base.subrange(0, n));
    assert(up =~= bp + route);
    assert forall|i: int| 0 <= i < up.len() implies is_path_char(#[trigger] up[i]) by {
        if i < bp.len() {
            assert(up[i] == bp[i]);
        } else {
            assert(up[i] == route[i - bp.len()]);
        }
    }
    assert forall|i: int| 0 <= i < up.len() && #[trigger] up[i] == '/' implies i > 0 && up[i
        - 1] != '/' by {
        if i < bp.len() {
            assert(up[i] == bp[i]);
            assert(up[i - 1] == bp[i - 1]);
        } else if i == bp.len() {
            assert(up[i] == route[0]);
            assert(route[0] != '/');
        } else {
            assert(up[i] == route[i - bp.len()]);
            assert(up[i - 1] == route[i - 1 - bp.len()]);
        }
    }
    assert forall|i: int| 0 <= i < up.len() && #[trigger] up[i] == '.' implies i > 0 && up[i
        - 1] != '/' && up[i - 1] != '.' by {
        if i < bp.len() {
            assert(up[i] == bp[i]);
            assert(up[i - 1] == bp[i - 1]);
        } else if i == bp.len() {
            assert(up[i] == route[0]);
        } else {
            assert(up[i] == route[i - bp.len()]);
            assert(up[i - 1] == route[i - 1 - bp.len()]);
        }
    }
}

} // verus!
