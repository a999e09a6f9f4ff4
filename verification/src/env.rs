//! A value-level snapshot of environment variables.
//!
//! The resolver never reads the process environment itself: a caller hands it
//! an [`Env`], a searchable list of name/value pairs. A later entry for a name
//! shadows an earlier one, as a later `set` would in a real environment.

use vstd::prelude::*;

verus! {

/// One environment variable: a name and its value.
pub struct EnvVar {
    pub name: String,
    pub value: String,
}

/// The mathematical form of one environment variable.
pub ghost struct EnvVarView {
    pub name: Seq<char>,
    pub value: Seq<char>,
}

impl View for EnvVar {
    type V = EnvVarView;

    open spec fn view(&self) -> EnvVarView {
        EnvVarView { name: self.name@, value: self.value@ }
    }
}

/// The value bound to `name`: that of the last entry carrying it, if any.
pub open spec fn lookup(vars: Seq<EnvVarView>, name: Seq<char>) -> Option<Seq<char>>
    decreases vars.len(),
{
    if vars.len() == 0 {
        None
    } else if vars.last().name == name {
        Some(vars.last().value)
    } else {
        lookup(vars.drop_last(), name)
    }
}

/// Appending one entry changes a lookup exactly for that entry's name.
pub proof fn lemma_lookup_push(vars: Seq<EnvVarView>, entry: EnvVarView, name: Seq<char>)
    ensures
        lookup(vars.push(entry), name) == (if entry.name == name {
            Some(entry.value)
        } else {
            lookup(vars, name)
        }),
{
    assert(vars.push(entry).last() == entry);
    assert(vars.push(entry).drop_last() =~= vars);
}

/// A snapshot of environment variables.
pub struct Env {
    vars: Vec<EnvVar>,
}

impl View for Env {
    type V = Seq<EnvVarView>;

    closed spec fn view(&self) -> Seq<EnvVarView> {
        self.vars@.map_values(|v: EnvVar| v@)
    }
}

impl Env {
    /// An environment with no variables at all.
    pub fn new() -> (r: Env)
        ensures
            r@ =~= Seq::<EnvVarView>::empty(),
    {
        Env { vars: Vec::new() }
    }

    /// Binds `name` to `value`, shadowing any earlier binding of `name`.
    pub fn set(&mut self, name: String, value: String)
        ensures
            final(self)@ =~= old(self)@.push(EnvVarView { name: name@, value: value@ }),
    {
        let ghost entry = EnvVarView { name: name@, value: value@ };
        self.vars.push(EnvVar { name, value });
        proof {
            assert(final(self)@ =~= old(self)@.push(entry));
        }
    }

    /// The value bound to `name` in this snapshot, if any.
    pub fn get(&self, name: &str) -> (r: Option<String>)
        ensures
            match r {
                Some(v) => lookup(self@, name@) == Some(v@),
                None => lookup(self@, name@) is None,
            },
    {
        let key: String = name.to_owned();
        let mut i: usize = self.vars.len();
        proof {
            assert(self@.subrange(0, i as int) =~= self@);
        }
        while i > 0
            invariant
                i <= self.vars.len(),
                key@ == name@,
                lookup(self@, name@) == lookup(self@.subrange(0, i as int), name@),
            decreases i,
        {
            i = i - 1;
            proof {
                assert(self@.subrange(0, i + 1 as int) =~= self@.subrange(0, i as int).push(
                    self@[i as int],
                ));
                lemma_lookup_push(self@.subrange(0, i as int), self@[i as int], name@);
            }
            if self.vars[i].name == key {
                return Some(self.vars[i].value.clone());
            }
        }
        proof {
            assert(self@.subrange(0, 0) =~= Seq::<EnvVarView>::empty());
        }
        None
    }
}

} // verus!
