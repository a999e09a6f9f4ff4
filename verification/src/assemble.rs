//! Assembly of the resolved components into one URL string.
//!
//! The template branches only on whether the userinfo and the query are empty:
//!
//! - `{scheme}://{userinfo}@{host}:{port}{path}?{query}`
//! - `{scheme}://{userinfo}@{host}:{port}{path}`
//! - `{scheme}://{host}:{port}{path}?{query}`
//! - `{scheme}://{host}:{port}{path}`
//!
//! The port is inserted verbatim, even when it is empty: a URL whose port is
//! configured nowhere is assembled with a bare trailing colon after the host
//! (`host:`), and only the final parse cleans that up. This reproduces the
//! established output shape and is deliberately not "fixed" here.

use crate::parts::{UrlParts, UrlPartsView};
use vstd::prelude::*;

verus! {

/// The userinfo segment of the template: `{userinfo}@`, or nothing.
pub open spec fn userinfo_segment(userinfo: Seq<char>) -> Seq<char> {
    if userinfo.len() == 0 {
        Seq::<char>::empty()
    } else {
        userinfo + "@"@
    }
}

/// The query segment of the template: `?{query}`, or nothing.
pub open spec fn query_segment(query: Seq<char>) -> Seq<char> {
    if query.len() == 0 {
        Seq::<char>::empty()
    } else {
        "?"@ + query
    }
}

/// The URL string assembled from one set of component values.
pub open spec fn assembled_view(p: UrlPartsView) -> Seq<char> {
    p.scheme + "://"@ + userinfo_segment(p.userinfo) + p.host + ":"@ + p.port + p.path
        + query_segment(p.query)
}

/// Builds the URL string for one set of component values.
pub fn assemble(p: &UrlParts) -> (r: String)
    ensures
        r@ == assembled_view(p@),
{
    let mut s = p.scheme.clone();
    s.append("://");
    if !p.userinfo.as_str().is_empty() {
        s.append(p.userinfo.as_str());
        s.append("@");
    }
    s.append(p.host.as_str());
    s.append(":");
    s.append(p.port.as_str());
    s.append(p.path.as_str());
    if !p.query.as_str().is_empty() {
        s.append("?");
        s.append(p.query.as_str());
    }
    proof {
        assert(s@ =~= assembled_view(p@));
    }
    s
}

/// With a userinfo and no query, the assembled string is exactly
/// `{scheme}://{userinfo}@{host}:{port}{path}` — no `?` is appended.
pub proof fn lemma_assembled_userinfo_no_query(p: UrlPartsView)
    requires
        p.userinfo.len() > 0,
        p.query.len() == 0,
    ensures
        assembled_view(p) == p.scheme + "://"@ + p.userinfo + "@"@ + p.host + ":"@ + p.port
            + p.path,
{
    assert(assembled_view(p) =~= p.scheme + "://"@ + p.userinfo + "@"@ + p.host + ":"@ + p.port
        + p.path);
}

/// With a query and no userinfo, the assembled string is exactly
/// `{scheme}://{host}:{port}{path}?{query}` — no `@`-delimited segment.
pub proof fn lemma_assembled_query_no_userinfo(p: UrlPartsView)
    requires
        p.userinfo.len() == 0,
        p.query.len() > 0,
    ensures
        assembled_view(p) == p.scheme + "://"@ + p.host + ":"@ + p.port + p.path + "?"@ + p.query,
{
    assert(assembled_view(p) =~= p.scheme + "://"@ + p.host + ":"@ + p.port + p.path + "?"@
        + p.query);
}

} // verus!
