//! A snapshot of the process environment, taken once at startup.

use vstd::prelude::*;

verus! {

/// The value bound to `key` in a list of variables; the earliest binding wins.
pub open spec fn lookup(vars: Seq<(String, String)>, key: Seq<char>) -> Option<Seq<char>>
    decreases vars.len(),
{
    if vars.len() == 0 {
        None
    } else if vars[0].0@ == key {
        Some(vars[0].1@)
    } else {
        lookup(vars.drop_first(), key)
    }
}

/// The first of two optional values that is present.
pub open spec fn first_of(a: Option<Seq<char>>, b: Option<Seq<char>>) -> Option<Seq<char>> {
    if a is Some {
        a
    } else {
        b
    }
}

/// An optional value, or a fallback when it is absent.
pub open spec fn value_or(a: Option<Seq<char>>, fallback: Seq<char>) -> Seq<char> {
    match a {
        Some(v) => v,
        None => fallback,
    }
}

/// The text of an optional string.
pub open spec fn opt_view(o: Option<String>) -> Option<Seq<char>> {
    match o {
        Some(s) => Some(s@),
        None => None,
    }
}

/// Environment variables, as name/value pairs.
///
/// Every decision that depends on the environment takes a snapshot, so that
/// the same snapshot always yields the same decision.
#[derive(Debug)]
pub struct EnvSnapshot {
    vars: Vec<(String, String)>,
}

impl EnvSnapshot {
    /// The value of the variable `name`, if it is set.
    pub closed spec fn var(&self, name: Seq<char>) -> Option<Seq<char>> {
        lookup(self.vars@, name)
    }

    /// An environment in which no variable is set.
    pub fn new() -> (r: EnvSnapshot)
        ensures
            forall|name: Seq<char>| #[trigger] r.var(name) is None,
    {
        EnvSnapshot { vars: Vec::new() }
    }

    /// Binds `name` to `value`, replacing any earlier binding.
    pub fn set(&mut self, name: &str, value: &str)
        ensures
            final(self).var(name@) == Some(value@),
            forall|other: Seq<char>|
                other != name@ ==> #[trigger] final(self).var(other) == old(self).var(other),
    {
        let pair = (String::from_str(name), String::from_str(value));
        self.vars.insert(0, pair);
        assert(self.vars@.drop_first() =~= old(self).vars@);
    }

    /// The value of the variable `name`, if it is set.
    pub fn get(&self, name: &str) -> (r: Option<String>)
        ensures
            r matches Some(v) ==> self.var(name@) == Some(v@),
            r is None ==> self.var(name@) is None,
    {
        let key = String::from_str(name);
        let n = self.vars.len();
        let mut i: usize = 0;
        assert(self.vars@.subrange(0, n as int) =~= self.vars@);
        while i < n
            invariant
                n == self.vars@.len(),
                i <= n,
                key@ == name@,
                lookup(self.vars@, name@) == lookup(self.vars@.subrange(i as int, n as int), name@),
            decreases n - i,
        {
            let rest = Ghost(self.vars@.subrange(i as int, n as int));
            assert(rest@.drop_first() =~= self.vars@.subrange(i + 1, n as int));
            if self.vars[i].0 == key {
                return Some(self.vars[i].1.clone());
            }
            i = i + 1;
        }
        None
    }

    /// The value of `first` if it is set, else the value of `second`.
    pub fn get_first(&self, first: &str, second: &str) -> (r: Option<String>)
        ensures
            opt_view(r) == first_of(self.var(first@), self.var(second@)),
    {
        match self.get(first) {
            Some(v) => Some(v),
            None => self.get(second),
        }
    }

    /// Whether the variable `name` is set.
    pub fn contains(&self, name: &str) -> (r: bool)
        ensures
            r == self.var(name@) is Some,
    {
        self.get(name).is_some()
    }
}

} // verus!
