//! The trusted boundary to the `url` crate.
//!
//! A `url::Url` is opaque to the verifier, so what the crate computes is given
//! names: `url_norm` stands for what `url::Url::parse` returns (`None` on a
//! parse error, otherwise the parsed URL's serialization), and the `*_of`
//! names stand for what each component accessor reads out of a parsed URL.
//! All of them depend on their argument alone. Each wrapper below makes one
//! call into the crate and states its result over these names.

use vstd::prelude::*;

verus! {

#[verifier::external_type_specification]
#[verifier::external_body]
pub struct ExUrl(url::Url);

#[verifier::external_type_specification]
#[verifier::external_body]
pub struct ExParseError(url::ParseError);

pub uninterp spec fn url_norm(s: Seq<char>) -> Option<Seq<char>>;

pub uninterp spec fn url_str(u: url::Url) -> Seq<char>;

pub uninterp spec fn scheme_of(u: url::Url) -> Seq<char>;

pub uninterp spec fn host_of(u: url::Url) -> Option<Seq<char>>;

pub uninterp spec fn port_of(u: url::Url) -> Option<u16>;

pub uninterp spec fn path_of(u: url::Url) -> Seq<char>;

pub uninterp spec fn query_of(u: url::Url) -> Option<Seq<char>>;

pub uninterp spec fn username_of(u: url::Url) -> Seq<char>;

pub uninterp spec fn password_of(u: url::Url) -> Option<Seq<char>>;

/// Relies on url::Url::parse: an absolute URL parsed from a string, or a
/// parse error. The serialization of the parsed URL is what url::Url::as_str
/// returns for it.
#[verifier::external_body]
pub(crate) fn parse_url(s: &str) -> (r: Result<url::Url, url::ParseError>)
    ensures
        match r {
            Ok(u) => url_norm(s@) == Some(url_str(u)),
            Err(_) => url_norm(s@) is None,
        },
{
    url::Url::parse(s)
}

/// Relies on url::Url::scheme: the scheme, without the ':' delimiter.
#[verifier::external_body]
pub(crate) fn url_scheme(u: &url::Url) -> (r: String)
    ensures
        r@ == scheme_of(*u),
{
    u.scheme().to_owned()
}

/// Relies on url::Url::host_str: the host, or None for a URL without one.
#[verifier::external_body]
pub(crate) fn url_host_str(u: &url::Url) -> (r: Option<String>)
    ensures
        match r {
            Some(h) => host_of(*u) == Some(h@),
            None => host_of(*u) is None,
        },
{
    u.host_str().map(|h| h.to_owned())
}

/// Relies on url::Url::port: the explicit port number, or None when the URL
/// carries none (a known default port counts as none).
#[verifier::external_body]
pub(crate) fn url_port(u: &url::Url) -> (r: Option<u16>)
    ensures
        r == port_of(*u),
{
    u.port()
}

/// Relies on url::Url::path: the path, percent-encoded.
#[verifier::external_body]
pub(crate) fn url_path(u: &url::Url) -> (r: String)
    ensures
        r@ == path_of(*u),
{
    u.path().to_owned()
}

/// Relies on url::Url::query: the query string, without the '?', or None
/// when the URL carries none.
#[verifier::external_body]
pub(crate) fn url_query(u: &url::Url) -> (r: Option<String>)
    ensures
        match r {
            Some(q) => query_of(*u) == Some(q@),
            None => query_of(*u) is None,
        },
{
    u.query().map(|q| q.to_owned())
}

/// Relies on url::Url::username: the username, empty when the URL has none.
#[verifier::external_body]
pub(crate) fn url_username(u: &url::Url) -> (r: String)
    ensures
        r@ == username_of(*u),
{
    u.username().to_owned()
}

/// Relies on url::Url::password: the password, or None when the URL has none.
#[verifier::external_body]
pub(crate) fn url_password(u: &url::Url) -> (r: Option<String>)
    ensures
        match r {
            Some(p) => password_of(*u) == Some(p@),
            None => password_of(*u) is None,
        },
{
    u.password().map(|p| p.to_owned())
}

} // verus!
