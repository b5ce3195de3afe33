//! Content negotiation: from request metadata to the output format of the
//! response. Negotiation is infallible; trouble resolving an identity only
//! makes the HTML context anonymous.

use vstd::prelude::*;
use crate::media::{is_json_media, matches_json_media, opt_bytes};

verus! {

/// The rendering context of an HTML response: the caller's identity as a
/// data value, if one was resolved. `None` renders as an anonymous visitor.
pub struct HtmlContext {
    pub account: Option<serde_json::Value>,
}

impl HtmlContext {
    /// Builds the context from the outcome of identity resolution: a failed
    /// or absent resolution is handed in as `None` and stays anonymous.
    pub fn new(account: Option<serde_json::Value>) -> (r: Self)
        ensures
            r.account == account,
    {
        HtmlContext { account }
    }
}

/// The negotiated output format of one response: JSON carries nothing, HTML
/// carries the rendering context.
pub enum Format {
    Json,
    Html(HtmlContext),
}

/// The characters of the literal suffix `.json`.
pub open spec fn json_suffix() -> Seq<char> {
    seq!['.', 'j', 's', 'o', 'n']
}

/// Where the path component of the request string ends: at the first `?`,
/// or at the end of the string when no query string follows.
pub open spec fn is_path_end(p: Seq<char>, e: int) -> bool {
    &&& 0 <= e <= p.len()
    &&& forall|j: int| 0 <= j < e ==> p[j] != '?'
    &&& e == p.len() || p[e] == '?'
}

/// The end of the path component is a single place.
pub proof fn lemma_path_end_unique(p: Seq<char>, e1: int, e2: int)
    requires
        is_path_end(p, e1),
        is_path_end(p, e2),
    ensures
        e1 == e2,
{
    if e1 < e2 {
        assert(p[e1] == '?');
        assert(p[e1] != '?');
    }
    if e2 < e1 {
        assert(p[e2] == '?');
        assert(p[e2] != '?');
    }
}

/// Whether the request path — the part before any query string — ends in
/// `.json`.
pub open spec fn path_is_json(p: Seq<char>) -> bool {
    exists|e: int| is_path_end(p, e) && e >= 5 && p.subrange(e - 5, e) == json_suffix()
}

/// The negotiation rule, first match wins: a `.json` path suffix, then an
/// `application/json` `Accept` header (any letter case), else HTML.
pub open spec fn spec_wants_json(path_and_query: Seq<char>, accept: Option<Seq<u8>>) -> bool {
    path_is_json(path_and_query) || (accept matches Some(h) && is_json_media(h))
}

/// Finds where the path component ends: the place of the first `?`, or the
/// length of the string when no query string follows.
fn path_end(s: &str) -> (e: usize)
    ensures
        is_path_end(s@, e as int),
{
    let n = s.unicode_len();
    let mut i: usize = 0;
    while i < n
        invariant
            n == s@.len(),
            0 <= i <= n,
            forall|j: int| 0 <= j < i ==> s@[j] != '?',
        decreases n - i,
    {
        if s.get_char(i) == '?' {
            return i;
        }
        i = i + 1;
    }
    i
}

/// Whether the request path — the part before any query string — ends in
/// `.json`.
pub fn path_ends_with_json(path_and_query: &str) -> (r: bool)
    ensures
        r == path_is_json(path_and_query@),
{
    let ghost p = path_and_query@;
    let e = path_end(path_and_query);
    proof {
        assert forall|e2: int| is_path_end(p, e2) implies e2 == e as int by {
            lemma_path_end_unique(p, e2, e as int);
        }
    }
    if e < 5 {
        return false;
    }
    let c0 = path_and_query.get_char(e - 5);
    let c1 = path_and_query.get_char(e - 4);
    let c2 = path_and_query.get_char(e - 3);
    let c3 = path_and_query.get_char(e - 2);
    let c4 = path_and_query.get_char(e - 1);
    let r = c0 == '.' && c1 == 'j' && c2 == 's' && c3 == 'o' && c4 == 'n';
    proof {
        let sub = p.subrange(e - 5, e as int);
        assert(sub[0] == p[e - 5]);
        assert(sub[1] == p[e - 4]);
        assert(sub[2] == p[e - 3]);
        assert(sub[3] == p[e - 2]);
        assert(sub[4] == p[e - 1]);
        if r {
            assert(sub =~= json_suffix());
        } else {
            assert(sub != json_suffix());
        }
    }
    r
}

/// Whether the request negotiates JSON output.
pub fn wants_json(path_and_query: &str, accept: Option<&[u8]>) -> (r: bool)
    ensures
        r == spec_wants_json(path_and_query@, opt_bytes(accept)),
{
    if path_ends_with_json(path_and_query) {
        return true;
    }
    match accept {
        Some(h) => matches_json_media(h),
        None => false,
    }
}

impl Format {
    /// Negotiates the output format from the request metadata. Negotiation
    /// never fails: where HTML is chosen, the already-attempted identity
    /// resolution is taken as it came, a failure meaning an anonymous
    /// context.
    pub fn from_request_parts(
        path_and_query: &str,
        accept: Option<&[u8]>,
        account: Option<serde_json::Value>,
    ) -> (r: Format)
        ensures
            spec_wants_json(path_and_query@, opt_bytes(accept)) ==> r is Json,
            !spec_wants_json(path_and_query@, opt_bytes(accept)) ==> (r matches Format::Html(ctx)
                && ctx.account == account),
    {
        if wants_json(path_and_query, accept) {
            Format::Json
        } else {
            Format::Html(HtmlContext::new(account))
        }
    }
}

/// Law: a request whose path ends in `.json` negotiates JSON, whatever the
/// `Accept` header says.
pub proof fn lemma_json_suffix_forces_json(path_and_query: Seq<char>, accept: Option<Seq<u8>>)
    requires
        path_is_json(path_and_query),
    ensures
        spec_wants_json(path_and_query, accept),
{
}

/// Law: an `Accept` header equal to `application/json` up to letter case
/// negotiates JSON, whatever the path — in particular when the path does not
/// end in `.json`.
pub proof fn lemma_accept_forces_json(path_and_query: Seq<char>, accept: Seq<u8>)
    requires
        is_json_media(accept),
    ensures
        spec_wants_json(path_and_query, Some(accept)),
{
}

/// Law: every other request negotiates HTML.
pub proof fn lemma_otherwise_html(path_and_query: Seq<char>, accept: Option<Seq<u8>>)
    requires
        !path_is_json(path_and_query),
        accept matches Some(h) ==> !is_json_media(h),
    ensures
        !spec_wants_json(path_and_query, accept),
{
}

} // verus!
