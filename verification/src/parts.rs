//! The six URL components the resolver works on, as plain strings.
//!
//! A parsed URL of the `url` crate is opaque to the verifier, so the resolver
//! models what it reads from one — scheme, host, port, path, query, userinfo —
//! as a struct of strings. The port is kept as its decimal rendering, or empty
//! when the URL carries none; the query is empty when the URL carries none;
//! the userinfo is `user`, `user:password`, or empty.

use crate::digits::dec_str;
use vstd::prelude::*;

verus! {

/// The component values of one URL, as plain strings.
pub struct UrlParts {
    pub scheme: String,
    pub host: String,
    pub port: String,
    pub path: String,
    pub query: String,
    pub userinfo: String,
}

/// The mathematical form of [`UrlParts`].
pub ghost struct UrlPartsView {
    pub scheme: Seq<char>,
    pub host: Seq<char>,
    pub port: Seq<char>,
    pub path: Seq<char>,
    pub query: Seq<char>,
    pub userinfo: Seq<char>,
}

impl View for UrlParts {
    type V = UrlPartsView;

    open spec fn view(&self) -> UrlPartsView {
        UrlPartsView {
            scheme: self.scheme@,
            host: self.host@,
            port: self.port@,
            path: self.path@,
            query: self.query@,
            userinfo: self.userinfo@,
        }
    }
}

/// The userinfo string of a username and an optional password:
/// `user:password` when a password is present, else the username alone.
pub open spec fn userinfo_view(username: Seq<char>, password: Option<Seq<char>>) -> Seq<char> {
    match password {
        Some(p) => username + ":"@ + p,
        None => username,
    }
}

/// The port component string of an optional port number: its decimal
/// rendering, or empty when the URL carries no explicit port.
pub open spec fn port_view(port: Option<u16>) -> Seq<char> {
    match port {
        Some(p) => dec_str(p as nat),
        None => Seq::<char>::empty(),
    }
}

/// An optional component string, with absence read as empty.
pub open spec fn opt_or_empty(v: Option<Seq<char>>) -> Seq<char> {
    match v {
        Some(s) => s,
        None => Seq::<char>::empty(),
    }
}

/// Joins a username and an optional password into one userinfo string.
pub fn make_userinfo(username: String, password: Option<&str>) -> (r: String)
    ensures
        r@ == userinfo_view(username@, match password {
            Some(p) => Some(p@),
            None => None,
        }),
{
    match password {
        Some(p) => {
            let ghost u0 = username@;
            let mut s = username;
            s.append(":");
            s.append(p);
            proof {
                assert(s@ =~= userinfo_view(u0, Some(p@)));
            }
            s
        },
        None => username,
    }
}

} // verus!
