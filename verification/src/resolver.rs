//! The resolver: layered environment overrides over a compiled-in default.
//!
//! Every lookup goes through a two-step indirection: the `_ENV`-suffixed
//! variable, when set, renames the variable that carries the value. A full-URL
//! override, when its (possibly renamed) carrier is set, supersedes all
//! per-component resolution. Components that no variable overrides fall back
//! to the default URL's values, and the assembled string is parsed as the
//! final URL.

use crate::assemble::{assemble, assembled_view};
use crate::digits::decimal_string;
use crate::env::{lookup, Env, EnvVarView};
use crate::keys::{
    component_key, component_key_view, component_override_key, component_override_key_view,
    url_key, url_key_view, url_override_key, url_override_key_view, Component,
};
use crate::parts::{make_userinfo, opt_or_empty, port_view, userinfo_view, UrlParts, UrlPartsView};
use crate::url_api::{
    host_of, parse_url, password_of, path_of, port_of, query_of, scheme_of, url_host_str, url_norm,
    url_password, url_path, url_port, url_query, url_scheme, url_str, url_username, username_of,
};
use vstd::prelude::*;

verus! {

/// What resolution can report: the one failure is a URL parse error, carried
/// verbatim from the parser.
#[derive(Debug)]
pub enum ResolveError {
    Parse(url::ParseError),
}

/// The immutable input of a resolution: a name prefix and the component
/// values of the default URL.
pub struct ResolverConfig {
    pub prefix: String,
    pub default: UrlParts,
}

/// The mathematical form of [`ResolverConfig`].
pub ghost struct ResolverConfigView {
    pub prefix: Seq<char>,
    pub default: UrlPartsView,
}

impl View for ResolverConfig {
    type V = ResolverConfigView;

    open spec fn view(&self) -> ResolverConfigView {
        ResolverConfigView { prefix: self.prefix@, default: self.default@ }
    }
}

/// The two-step lookup: when the key-override variable is set, its value —
/// whatever it is — names the variable to read; otherwise the plain key is
/// read.
pub open spec fn indirect_lookup(
    env: Seq<EnvVarView>,
    override_key: Seq<char>,
    key: Seq<char>,
) -> Option<Seq<char>> {
    match lookup(env, override_key) {
        Some(name) => lookup(env, name),
        None => lookup(env, key),
    }
}

/// The default value of one component, out of the default URL's parts.
pub open spec fn default_component_view(p: UrlPartsView, c: Component) -> Seq<char> {
    match c {
        Component::Scheme => p.scheme,
        Component::Host => p.host,
        Component::Port => p.port,
        Component::Path => p.path,
        Component::Query => p.query,
        Component::Userinfo => p.userinfo,
    }
}

/// The value of one component: its two-step lookup, or its default.
pub open spec fn resolved_component_view(
    c: ResolverConfigView,
    env: Seq<EnvVarView>,
    comp: Component,
) -> Seq<char> {
    match indirect_lookup(
        env,
        component_override_key_view(c.prefix, comp),
        component_key_view(c.prefix, comp),
    ) {
        Some(v) => v,
        None => default_component_view(c.default, comp),
    }
}

/// All six components, each resolved independently.
pub open spec fn resolved_parts_view(c: ResolverConfigView, env: Seq<EnvVarView>) -> UrlPartsView {
    UrlPartsView {
        scheme: resolved_component_view(c, env, Component::Scheme),
        host: resolved_component_view(c, env, Component::Host),
        port: resolved_component_view(c, env, Component::Port),
        path: resolved_component_view(c, env, Component::Path),
        query: resolved_component_view(c, env, Component::Query),
        userinfo: resolved_component_view(c, env, Component::Userinfo),
    }
}

/// The full-URL override, when its (possibly renamed) carrier is set.
pub open spec fn full_url_override(c: ResolverConfigView, env: Seq<EnvVarView>) -> Option<
    Seq<char>,
> {
    indirect_lookup(env, url_override_key_view(c.prefix), url_key_view(c.prefix))
}

/// The string handed to the URL parser: the full-URL override when present,
/// otherwise the assembly of the six resolved components.
pub open spec fn resolved_string(c: ResolverConfigView, env: Seq<EnvVarView>) -> Seq<char> {
    match full_url_override(c, env) {
        Some(v) => v,
        None => assembled_view(resolved_parts_view(c, env)),
    }
}

/// With no variables set at all, every component keeps its default, and the
/// parser is handed exactly the assembly of the default's components.
pub proof fn lemma_empty_env_uses_defaults(c: ResolverConfigView)
    ensures
        resolved_parts_view(c, Seq::<EnvVarView>::empty()) == c.default,
        resolved_string(c, Seq::<EnvVarView>::empty()) == assembled_view(c.default),
{
}

/// A full-URL override supersedes everything: whenever the two-step lookup of
/// the full-URL carrier yields a value, that value — and nothing of the
/// per-component resolution — is the string handed to the parser, whatever
/// else the environment holds.
pub proof fn lemma_full_url_override_wins(
    c: ResolverConfigView,
    env: Seq<EnvVarView>,
    v: Seq<char>,
)
    requires
        full_url_override(c, env) == Some(v),
    ensures
        resolved_string(c, env) == v,
{
}

/// Renaming the full-URL carrier is transparent: an environment that sets the
/// key-override variable to some other name and carries the URL under that
/// name resolves to the same string as one that carries the URL under the
/// plain key directly.
pub proof fn lemma_url_key_indirection(
    c: ResolverConfigView,
    env_renamed: Seq<EnvVarView>,
    env_direct: Seq<EnvVarView>,
    name: Seq<char>,
    v: Seq<char>,
)
    requires
        lookup(env_renamed, url_override_key_view(c.prefix)) == Some(name),
        lookup(env_renamed, name) == Some(v),
        lookup(env_direct, url_override_key_view(c.prefix)) is None,
        lookup(env_direct, url_key_view(c.prefix)) == Some(v),
    ensures
        resolved_string(c, env_renamed) == resolved_string(c, env_direct),
{
    assert(resolved_string(c, env_renamed) == v);
    assert(resolved_string(c, env_direct) == v);
}

/// The same indirection is transparent for each per-component carrier.
pub proof fn lemma_component_key_indirection(
    c: ResolverConfigView,
    env_renamed: Seq<EnvVarView>,
    env_direct: Seq<EnvVarView>,
    comp: Component,
    name: Seq<char>,
    v: Seq<char>,
)
    requires
        lookup(env_renamed, component_override_key_view(c.prefix, comp)) == Some(name),
        lookup(env_renamed, name) == Some(v),
        lookup(env_direct, component_override_key_view(c.prefix, comp)) is None,
        lookup(env_direct, component_key_view(c.prefix, comp)) == Some(v),
    ensures
        resolved_component_view(c, env_renamed, comp) == resolved_component_view(
            c,
            env_direct,
            comp,
        ),
{
}

/// Overriding the host alone changes the host alone: in an environment whose
/// only relevant variable is the host carrier, every other component keeps
/// its default, and the parser is handed the assembly of exactly that.
pub proof fn lemma_host_override_isolated(
    c: ResolverConfigView,
    env: Seq<EnvVarView>,
    h: Seq<char>,
)
    requires
        lookup(env, component_key_view(c.prefix, Component::Host)) == Some(h),
        lookup(env, url_key_view(c.prefix)) is None,
        lookup(env, url_override_key_view(c.prefix)) is None,
        forall|comp: Component|
            lookup(env, #[trigger] component_override_key_view(c.prefix, comp)) is None,
        forall|comp: Component|
            comp != Component::Host ==> lookup(
                env,
                #[trigger] component_key_view(c.prefix, comp),
            ) is None,
    ensures
        resolved_parts_view(c, env) == (UrlPartsView {
            host: h,
            scheme: c.default.scheme,
            port: c.default.port,
            path: c.default.path,
            query: c.default.query,
            userinfo: c.default.userinfo,
        }),
        resolved_string(c, env) == assembled_view(
            UrlPartsView {
                host: h,
                scheme: c.default.scheme,
                port: c.default.port,
                path: c.default.path,
                query: c.default.query,
                userinfo: c.default.userinfo,
            },
        ),
{
    assert(lookup(env, component_override_key_view(c.prefix, Component::Scheme)) is None);
    assert(lookup(env, component_override_key_view(c.prefix, Component::Host)) is None);
    assert(lookup(env, component_override_key_view(c.prefix, Component::Port)) is None);
    assert(lookup(env, component_override_key_view(c.prefix, Component::Path)) is None);
    assert(lookup(env, component_override_key_view(c.prefix, Component::Query)) is None);
    assert(lookup(env, component_override_key_view(c.prefix, Component::Userinfo)) is None);
    assert(lookup(env, component_key_view(c.prefix, Component::Scheme)) is None);
    assert(lookup(env, component_key_view(c.prefix, Component::Port)) is None);
    assert(lookup(env, component_key_view(c.prefix, Component::Path)) is None);
    assert(lookup(env, component_key_view(c.prefix, Component::Query)) is None);
    assert(lookup(env, component_key_view(c.prefix, Component::Userinfo)) is None);
}

/// The two-step lookup, in executable form.
fn indirect_get(env: &Env, override_key: &String, key: &String) -> (r: Option<String>)
    ensures
        match r {
            Some(v) => indirect_lookup(env@, override_key@, key@) == Some(v@),
            None => indirect_lookup(env@, override_key@, key@) is None,
        },
{
    match env.get(override_key.as_str()) {
        Some(name) => env.get(name.as_str()),
        None => env.get(key.as_str()),
    }
}

/// Resolves one component against the environment snapshot.
fn resolved_component(config: &ResolverConfig, env: &Env, comp: Component) -> (r: String)
    ensures
        r@ == resolved_component_view(config@, env@, comp),
{
    let override_key = component_override_key(config.prefix.as_str(), comp);
    let key = component_key(config.prefix.as_str(), comp);
    match indirect_get(env, &override_key, &key) {
        Some(v) => v,
        None => match comp {
            Component::Scheme => config.default.scheme.clone(),
            Component::Host => config.default.host.clone(),
            Component::Port => config.default.port.clone(),
            Component::Path => config.default.path.clone(),
            Component::Query => config.default.query.clone(),
            Component::Userinfo => config.default.userinfo.clone(),
        },
    }
}

/// The component values that a parsed default URL supplies as fallbacks.
pub open spec fn default_parts_of(u: url::Url) -> UrlPartsView {
    UrlPartsView {
        scheme: scheme_of(u),
        host: host_of(u)->Some_0,
        port: port_view(port_of(u)),
        path: path_of(u),
        query: opt_or_empty(query_of(u)),
        userinfo: userinfo_view(username_of(u), password_of(u)),
    }
}

impl ResolverConfig {
    /// Builds a configuration from a prefix and an already-parsed default
    /// URL, reading every component's fallback value out of it. A default
    /// without a host cannot supply fallbacks, so it is rejected.
    pub fn from_url(prefix: &str, default: &url::Url) -> (r: Option<ResolverConfig>)
        ensures
            r is Some <==> host_of(*default) is Some,
            r is Some ==> r->Some_0@ == (ResolverConfigView {
                prefix: prefix@,
                default: default_parts_of(*default),
            }),
    {
        let host = match url_host_str(default) {
            Some(h) => h,
            None => {
                return None;
            },
        };
        let scheme = url_scheme(default);
        let port = match url_port(default) {
            Some(p) => decimal_string(p),
            None => String::new(),
        };
        let path = url_path(default);
        let query = match url_query(default) {
            Some(q) => q,
            None => String::new(),
        };
        let username = url_username(default);
        let userinfo = match url_password(default) {
            Some(p) => make_userinfo(username, Some(p.as_str())),
            None => username,
        };
        Some(
            ResolverConfig {
                prefix: prefix.to_owned(),
                default: UrlParts { scheme, host, port, path, query, userinfo },
            },
        )
    }

    /// Resolves the service URL against the given environment snapshot: the
    /// result is the parse of `resolved_string`, and the one error is that
    /// string failing to parse.
    pub fn resolve(&self, env: &Env) -> (r: Result<url::Url, ResolveError>)
        ensures
            match r {
                Ok(u) => url_norm(resolved_string(self@, env@)) == Some(url_str(u)),
                Err(_) => url_norm(resolved_string(self@, env@)) is None,
            },
    {
        let override_key = url_override_key(self.prefix.as_str());
        let key = url_key(self.prefix.as_str());
        let service_url: String = match indirect_get(env, &override_key, &key) {
            Some(v) => v,
            None => {
                let parts = UrlParts {
                    scheme: resolved_component(self, env, Component::Scheme),
                    host: resolved_component(self, env, Component::Host),
                    port: resolved_component(self, env, Component::Port),
                    path: resolved_component(self, env, Component::Path),
                    query: resolved_component(self, env, Component::Query),
                    userinfo: resolved_component(self, env, Component::Userinfo),
                };
                assemble(&parts)
            },
        };
        proof {
            assert(service_url@ == resolved_string(self@, env@));
        }
        match parse_url(service_url.as_str()) {
            Ok(u) => Ok(u),
            Err(e) => Err(ResolveError::Parse(e)),
        }
    }
}

} // verus!
