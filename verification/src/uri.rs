//! The parts of a request target that the stage reads, and the text of the
//! URI that they make up.

use actix_http::uri::{Authority, Parts, PathAndQuery, Uri};
use std::str::FromStr;
use vstd::prelude::*;
use vstd::string::*;
use vstd::utf8::is_ascii_chars;

verus! {

/// Scheme of a request: whether it arrived in plaintext or over TLS.
#[derive(Clone, Copy, Debug, PartialEq, Eq, Structural, Hash)]
pub enum Scheme {
    Http,
    Https,
}

impl Scheme {
    /// The scheme as it is written in a URI.
    pub open spec fn text(self) -> Seq<char> {
        match self {
            Scheme::Http => seq!['h', 't', 't', 'p'],
            Scheme::Https => seq!['h', 't', 't', 'p', 's'],
        }
    }

    /// The scheme as it is written in a URI.
    pub fn as_str(&self) -> (out: &'static str)
        ensures
            out@ == self.text(),
    {
        match self {
            Scheme::Http => {
                proof {
                    reveal_strlit("http");
                }
                assert("http"@ =~= Scheme::Http.text());
                "http"
            },
            Scheme::Https => {
                proof {
                    reveal_strlit("https");
                }
                assert("https"@ =~= Scheme::Https.text());
                "https"
            },
        }
    }
}

/// What the stage reads of an inbound request.
///
/// `scheme` is `None` where the request names none, or one that is neither
/// `http` nor `https`. `host` is the authority: the host name and, where the
/// request gave one, a colon and the port. `query` is what follows the `?`,
/// and `None` where the request has no `?`.
#[derive(Clone, Debug, PartialEq, Eq)]
pub struct RequestContext {
    pub scheme: Option<Scheme>,
    pub host: String,
    pub path: String,
    pub query: Option<String>,
}

/// A [`RequestContext`] as contracts see it.
pub struct RequestContextView {
    pub scheme: Option<Scheme>,
    pub host: Seq<char>,
    pub path: Seq<char>,
    pub query: Option<Seq<char>>,
}

impl View for RequestContext {
    type V = RequestContextView;

    open spec fn view(&self) -> RequestContextView {
        RequestContextView {
            scheme: self.scheme,
            host: self.host@,
            path: self.path@,
            query: match self.query {
                Some(q) => Some(q@),
                None => None,
            },
        }
    }
}

/// Why no redirect target can be made of a request's parts.
#[derive(Clone, Copy, Debug, PartialEq, Eq, Structural, Hash)]
pub enum InvalidUriError {
    /// The host is empty, or holds `/`, `?`, `#` or a character outside
    /// ASCII.
    MalformedHost,
    /// The path is empty, does not begin with `/`, or holds `?`, `#` or a
    /// character outside ASCII.
    MalformedPath,
    /// The query holds `#` or a character outside ASCII.
    MalformedQuery,
    /// Path and query together are longer than [`MAX_TARGET_LEN`].
    TooLong,
    /// The URI library refused the host, or a character of path or query.
    Rejected,
}

/// The longest path and query, `?` included, that a redirect is made for.
///
/// The URI library keeps the place of the `?` in sixteen bits; up to this
/// length it hands a path and query back as it took them.
pub const MAX_TARGET_LEN: usize = 65534;

/// A host that can stand in a URI between `://` and the path: it is not empty
/// and ends before the first `/`, `?` or `#`.
pub open spec fn well_formed_host(host: Seq<char>) -> bool {
    &&& is_ascii_chars(host)
    &&& host.len() > 0
    &&& !host.contains('/')
    &&& !host.contains('?')
    &&& !host.contains('#')
}

/// A path that can stand in a URI behind an authority: it begins with `/`
/// and ends before the first `?` or `#`.
pub open spec fn well_formed_path(path: Seq<char>) -> bool {
    &&& is_ascii_chars(path)
    &&& path.len() > 0
    &&& path[0] == '/'
    &&& !path.contains('?')
    &&& !path.contains('#')
}

/// A query that can stand in a URI behind a `?`: it ends before the first `#`.
pub open spec fn well_formed_query(query: Seq<char>) -> bool {
    &&& is_ascii_chars(query)
    &&& !query.contains('#')
}

/// Host, path and query that can stand together in a URI.
pub open spec fn well_formed_parts(
    host: Seq<char>,
    path: Seq<char>,
    query: Option<Seq<char>>,
) -> bool {
    &&& well_formed_host(host)
    &&& well_formed_path(path)
    &&& query matches Some(q) ==> well_formed_query(q)
}

/// Path and query as they follow the authority in a URI.
pub open spec fn target_text(path: Seq<char>, query: Option<Seq<char>>) -> Seq<char> {
    match query {
        Some(q) => path + seq!['?'] + q,
        None => path,
    }
}

/// The URI made of the four components: scheme, `://`, host, path and, where
/// there is a query, `?` and the query.
pub open spec fn uri_text(
    scheme: Scheme,
    host: Seq<char>,
    path: Seq<char>,
    query: Option<Seq<char>>,
) -> Seq<char> {
    scheme.text() + seq![':', '/', '/'] + host + target_text(path, query)
}

/// A path and query that the URI library, where it accepts them, keeps
/// character for character.
pub open spec fn plain_target(target: Seq<char>) -> bool {
    &&& is_ascii_chars(target)
    &&& 0 < target.len() <= MAX_TARGET_LEN
    &&& target[0] == '/'
    &&& !target.contains('#')
}

/// The text of the `https` URI that the URI library makes of an authority and
/// a path and query, and `None` where it refuses one of them.
pub uninterp spec fn assembled_https_uri(authority: Seq<char>, path_and_query: Seq<char>) -> Option<
    Seq<char>,
>;

/// Why no redirect target can be made of `req`, and `None` where one can.
pub open spec fn rejection(req: RequestContextView) -> Option<InvalidUriError> {
    if !well_formed_host(req.host) {
        Some(InvalidUriError::MalformedHost)
    } else if !well_formed_path(req.path) {
        Some(InvalidUriError::MalformedPath)
    } else if req.query is Some && !well_formed_query(req.query->0) {
        Some(InvalidUriError::MalformedQuery)
    } else if target_text(req.path, req.query).len() > MAX_TARGET_LEN {
        Some(InvalidUriError::TooLong)
    } else if assembled_https_uri(req.host, target_text(req.path, req.query)) is None {
        Some(InvalidUriError::Rejected)
    } else {
        None
    }
}

/// The redirect target of `req`: its host, path and query under `https`.
pub open spec fn secure_uri_text(req: RequestContextView) -> Seq<char> {
    uri_text(Scheme::Https, req.host, req.path, req.query)
}

/// Calls `Uri::from_parts` of the `http` crate, which `actix_http::uri` hands
/// on, with the scheme `Scheme::HTTPS`. The two texts are made its parts by
/// `Authority::from_str` and `PathAndQuery::from_str`, and the URI that comes
/// back is made text by `to_string`.
///
/// Believed of them: the outcome depends on the two texts alone; and where a
/// URI comes back for a path and query that is ASCII, begins with `/`, holds
/// no `#` and is no longer than [`MAX_TARGET_LEN`], its text is `https://`,
/// the authority and the path and query, each as it was given.
#[verifier::external_body]
pub(crate) fn assemble_https_uri(authority: &str, path_and_query: &str) -> (out: Option<String>)
    requires
        plain_target(path_and_query@),
    ensures
        match out {
            Some(text) => assembled_https_uri(authority@, path_and_query@) == Some(text@),
            None => assembled_https_uri(authority@, path_and_query@) is None,
        },
        out matches Some(text) ==> text@ == Scheme::Https.text() + seq![':', '/', '/']
            + authority@ + path_and_query@,
{
    let mut parts = Parts::default();
    parts.scheme = Some(actix_http::uri::Scheme::HTTPS);
    parts.authority = Authority::from_str(authority).ok();
    parts.path_and_query = PathAndQuery::from_str(path_and_query).ok();
    match Uri::from_parts(parts) {
        Ok(uri) => Some(uri.to_string()),
        Err(_) => None,
    }
}

/// Whether the ASCII text `s` holds the character with the code `c`.
fn holds_ascii(s: &str, c: u8) -> (out: bool)
    requires
        s.is_ascii(),
        c < 128,
    ensures
        out == s@.contains(c as char),
{
    broadcast use vstd::string::is_ascii_spec_bytes;

    let n: usize = s.as_bytes().len();
    let mut i: usize = 0;
    while i < n
        invariant
            s.is_ascii(),
            n == s@.len(),
            i <= n,
            forall|j: int| 0 <= j < i ==> s@[j] != c as char,
        decreases n - i,
    {
        if s.get_ascii(i) == c {
            return true;
        }
        i += 1;
    }
    false
}

/// Tells whether `host` is a [`well_formed_host`].
pub fn is_well_formed_host(host: &str) -> (out: bool)
    ensures
        out == well_formed_host(host@),
{
    broadcast use vstd::string::is_ascii_spec_bytes;

    if !host.is_ascii() {
        return false;
    }
    host.as_bytes().len() != 0 && !holds_ascii(host, 0x2f) && !holds_ascii(host, 0x3f)
        && !holds_ascii(host, 0x23)
}

/// Tells whether `path` is a [`well_formed_path`].
pub fn is_well_formed_path(path: &str) -> (out: bool)
    ensures
        out == well_formed_path(path@),
{
    broadcast use vstd::string::is_ascii_spec_bytes;

    if !path.is_ascii() {
        return false;
    }
    if path.as_bytes().len() == 0 {
        return false;
    }
    path.get_ascii(0) == 0x2f && !holds_ascii(path, 0x3f) && !holds_ascii(path, 0x23)
}

/// Tells whether `query` is a [`well_formed_query`].
pub fn is_well_formed_query(query: &str) -> (out: bool)
    ensures
        out == well_formed_query(query@),
{
    query.is_ascii() && !holds_ascii(query, 0x23)
}

/// A well-formed path, alone or with a well-formed query behind it, is a
/// plain target as long as it fits.
pub proof fn lemma_target_is_plain(path: Seq<char>, query: Option<Seq<char>>)
    requires
        well_formed_path(path),
        query matches Some(q) ==> well_formed_query(q),
        target_text(path, query).len() <= MAX_TARGET_LEN,
    ensures
        plain_target(target_text(path, query)),
{
    let target = target_text(path, query);
    match query {
        Some(q) => {
            assert forall|i: int| 0 <= i < target.len() implies '\0' <= #[trigger] target[i]
                <= '\u{7f}' && target[i] != '#' by {
                if i < path.len() {
                    assert(target[i] == path[i]);
                    assert(path.contains(path[i]));
                } else if i == path.len() {
                    assert(target[i] == '?');
                } else {
                    assert(target[i] == q[i - path.len() - 1]);
                    assert(q.contains(q[i - path.len() - 1]));
                }
            }
            assert(target[0] == path[0]);
        },
        None => {},
    }
}

/// A well-formed path, alone or with a well-formed query behind it, can be
/// taken apart in one way only.
pub proof fn lemma_target_text_unique(
    path_a: Seq<char>,
    query_a: Option<Seq<char>>,
    path_b: Seq<char>,
    query_b: Option<Seq<char>>,
)
    requires
        well_formed_path(path_a),
        well_formed_path(path_b),
        target_text(path_a, query_a) == target_text(path_b, query_b),
    ensures
        path_a == path_b,
        query_a == query_b,
{
    let t = target_text(path_a, query_a);
    // Where the two paths differ in length, the longer one holds the `?`
    // that ends the shorter one.
    if path_a.len() < path_b.len() {
        assert(t[path_a.len() as int] == path_b[path_a.len() as int]);
        assert(query_a is Some ==> t[path_a.len() as int] == '?');
        assert(path_b.contains(path_b[path_a.len() as int]));
        assert(query_a is None ==> t.len() == path_a.len());
        assert(false);
    }
    if path_b.len() < path_a.len() {
        assert(t[path_b.len() as int] == path_a[path_b.len() as int]);
        assert(query_b is Some ==> t[path_b.len() as int] == '?');
        assert(path_a.contains(path_a[path_b.len() as int]));
        assert(query_b is None ==> t.len() == path_b.len());
        assert(false);
    }
    assert(path_a =~= path_b) by {
        assert forall|i: int| 0 <= i < path_a.len() implies path_a[i] == path_b[i] by {
            assert(t[i] == path_a[i]);
            assert(t[i] == path_b[i]);
        }
    }
    match (query_a, query_b) {
        (Some(a), Some(b)) => {
            assert(a =~= b) by {
                assert(t.len() == path_a.len() + 1 + a.len());
                assert(target_text(path_b, query_b).len() == path_b.len() + 1 + b.len());
                assert forall|i: int| 0 <= i < a.len() implies a[i] == b[i] by {
                    assert(t[path_a.len() + 1 + i] == a[i]);
                    assert(t[path_b.len() + 1 + i] == b[i]);
                }
            }
        },
        (Some(a), None) => {
            assert(t.len() == path_a.len() + 1 + a.len());
            assert(t.len() == path_b.len());
        },
        (None, Some(b)) => {
            assert(t.len() == path_b.len() + 1 + b.len());
            assert(t.len() == path_a.len());
        },
        (None, None) => {},
    }
}

/// A URI of well-formed parts can be taken apart in one way only: two URIs
/// with the same text have the same scheme, host, path and query.
pub proof fn lemma_uri_text_unique(
    scheme_a: Scheme,
    host_a: Seq<char>,
    path_a: Seq<char>,
    query_a: Option<Seq<char>>,
    scheme_b: Scheme,
    host_b: Seq<char>,
    path_b: Seq<char>,
    query_b: Option<Seq<char>>,
)
    requires
        well_formed_parts(host_a, path_a, query_a),
        well_formed_parts(host_b, path_b, query_b),
        uri_text(scheme_a, host_a, path_a, query_a) == uri_text(scheme_b, host_b, path_b, query_b),
    ensures
        scheme_a == scheme_b,
        host_a == host_b,
        path_a == path_b,
        query_a == query_b,
{
    let t = uri_text(scheme_a, host_a, path_a, query_a);
    let target_a = target_text(path_a, query_a);
    let target_b = target_text(path_b, query_b);
    let start_a: int = scheme_a.text().len() as int + 3;
    let start_b: int = scheme_b.text().len() as int + 3;
    assert(target_a.len() > 0 && target_a[0] == '/');
    assert(target_b.len() > 0 && target_b[0] == '/');
    // The fifth character is `:` behind `http` and `s` behind `https`.
    assert(scheme_a == scheme_b) by {
        assert(t[4] == (scheme_a.text() + seq![':', '/', '/'])[4]);
        assert(t[4] == (scheme_b.text() + seq![':', '/', '/'])[4]);
    }
    assert(start_a == start_b);
    // Where the two hosts differ in length, the longer one holds the `/`
    // that begins the path behind the shorter one.
    if host_a.len() < host_b.len() {
        assert(t[start_a + host_a.len()] == target_a[0]);
        assert(t[start_b + host_a.len()] == host_b[host_a.len() as int]);
        assert(host_b.contains(host_b[host_a.len() as int]));
        assert(false);
    }
    if host_b.len() < host_a.len() {
        assert(t[start_b + host_b.len()] == target_b[0]);
        assert(t[start_a + host_b.len()] == host_a[host_b.len() as int]);
        assert(host_a.contains(host_a[host_b.len() as int]));
        assert(false);
    }
    assert(host_a =~= host_b) by {
        assert forall|i: int| 0 <= i < host_a.len() implies host_a[i] == host_b[i] by {
            assert(t[start_a + i] == host_a[i]);
            assert(t[start_b + i] == host_b[i]);
        }
    }
    assert(target_a =~= target_b) by {
        assert(t.len() == start_a + host_a.len() + target_a.len());
        assert(uri_text(scheme_b, host_b, path_b, query_b).len() == start_b + host_b.len() + target_b.len());
        assert forall|i: int| 0 <= i < target_a.len() implies target_a[i] == target_b[i] by {
            assert(t[start_a + host_a.len() + i] == target_a[i]);
            assert(t[start_b + host_b.len() + i] == target_b[i]);
        }
    }
    lemma_target_text_unique(path_a, query_a, path_b, query_b);
}

} // verus!
