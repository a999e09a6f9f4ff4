//! Derivation of the environment variable names that carry overrides.
//!
//! For a prefix `P`, each URL component is carried by `P_{COMPONENT}`, and
//! `P_{COMPONENT}_ENV` renames that carrier; `P_URL` and `P_URL_ENV` do the
//! same for the full-URL override.

use vstd::prelude::*;

verus! {

/// One independently overridable piece of a URL.
#[derive(Clone, Copy, PartialEq, Eq, Structural)]
pub enum Component {
    Scheme,
    Host,
    Port,
    Path,
    Query,
    Userinfo,
}

/// The name suffix that selects a component's carrier variable.
pub open spec fn suffix_view(c: Component) -> Seq<char> {
    match c {
        Component::Scheme => "_SCHEME"@,
        Component::Host => "_HOST"@,
        Component::Port => "_PORT"@,
        Component::Path => "_PATH"@,
        Component::Query => "_QUERY"@,
        Component::Userinfo => "_USERINFO"@,
    }
}

/// The suffix of `suffix_view`, in executable form.
pub fn suffix_str(c: Component) -> (r: &'static str)
    ensures
        r@ == suffix_view(c),
{
    match c {
        Component::Scheme => "_SCHEME",
        Component::Host => "_HOST",
        Component::Port => "_PORT",
        Component::Path => "_PATH",
        Component::Query => "_QUERY",
        Component::Userinfo => "_USERINFO",
    }
}

/// The env var name `{prefix}{suffix}` of one lookup key.
pub open spec fn derived_key_view(prefix: Seq<char>, suffix: Seq<char>) -> Seq<char> {
    prefix + suffix
}

/// Builds the env var name `{prefix}{suffix}` of one lookup key.
pub fn derived_key(prefix: &str, suffix: &str) -> (r: String)
    ensures
        r@ == derived_key_view(prefix@, suffix@),
{
    let mut s = prefix.to_owned();
    s.append(suffix);
    s
}

/// The name of the variable that carries a component's value.
pub open spec fn component_key_view(prefix: Seq<char>, c: Component) -> Seq<char> {
    derived_key_view(prefix, suffix_view(c))
}

/// The name of the variable that renames a component's carrier.
pub open spec fn component_override_key_view(prefix: Seq<char>, c: Component) -> Seq<char> {
    derived_key_view(prefix, suffix_view(c) + "_ENV"@)
}

/// The name of the variable that carries the full-URL override.
pub open spec fn url_key_view(prefix: Seq<char>) -> Seq<char> {
    derived_key_view(prefix, "_URL"@)
}

/// The name of the variable that renames the full-URL carrier.
pub open spec fn url_override_key_view(prefix: Seq<char>) -> Seq<char> {
    derived_key_view(prefix, "_URL_ENV"@)
}

/// Builds the component carrier name, `{prefix}_{COMPONENT}`.
pub fn component_key(prefix: &str, c: Component) -> (r: String)
    ensures
        r@ == component_key_view(prefix@, c),
{
    derived_key(prefix, suffix_str(c))
}

/// Builds the component carrier-renaming name, `{prefix}_{COMPONENT}_ENV`.
pub fn component_override_key(prefix: &str, c: Component) -> (r: String)
    ensures
        r@ == component_override_key_view(prefix@, c),
{
    let mut s = prefix.to_owned();
    s.append(suffix_str(c));
    s.append("_ENV");
    proof {
        assert(s@ =~= component_override_key_view(prefix@, c));
    }
    s
}

/// Builds the full-URL carrier name, `{prefix}_URL`.
pub fn url_key(prefix: &str) -> (r: String)
    ensures
        r@ == url_key_view(prefix@),
{
    derived_key(prefix, "_URL")
}

/// Builds the full-URL carrier-renaming name, `{prefix}_URL_ENV`.
pub fn url_override_key(prefix: &str) -> (r: String)
    ensures
        r@ == url_override_key_view(prefix@),
{
    derived_key(prefix, "_URL_ENV")
}

/// For one prefix, a derived name determines the suffix it was built from:
/// two different suffixes never collide.
pub proof fn lemma_derived_key_injective(prefix: Seq<char>, s1: Seq<char>, s2: Seq<char>)
    requires
        derived_key_view(prefix, s1) == derived_key_view(prefix, s2),
    ensures
        s1 == s2,
{
    assert((prefix + s1).len() == prefix.len() + s1.len());
    assert((prefix + s2).len() == prefix.len() + s2.len());
    assert(s1.len() == s2.len());
    assert forall|i: int| 0 <= i < s1.len() implies s1[i] == s2[i] by {
        assert((prefix + s1)[prefix.len() + i] == s1[i]);
        assert((prefix + s2)[prefix.len() + i] == s2[i]);
    }
    assert(s1 =~= s2);
}

/// Distinct components are carried by distinct variables.
pub proof fn lemma_component_keys_distinct(prefix: Seq<char>, c1: Component, c2: Component)
    requires
        c1 != c2,
    ensures
        component_key_view(prefix, c1) != component_key_view(prefix, c2),
{
    reveal_strlit("_SCHEME");
    reveal_strlit("_HOST");
    reveal_strlit("_PORT");
    reveal_strlit("_PATH");
    reveal_strlit("_QUERY");
    reveal_strlit("_USERINFO");
    assert(suffix_view(c1) != suffix_view(c2)) by {
        if suffix_view(c1) == suffix_view(c2) {
            assert(suffix_view(c1).len() == suffix_view(c2).len());
            assert(suffix_view(c1)[1] == suffix_view(c2)[1]);
            assert(suffix_view(c1)[2] == suffix_view(c2)[2]);
        }
    }
    if component_key_view(prefix, c1) == component_key_view(prefix, c2) {
        lemma_derived_key_injective(prefix, suffix_view(c1), suffix_view(c2));
    }
}

} // verus!
