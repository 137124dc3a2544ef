//! The process environment as a plain value that the planners read from.
use vstd::prelude::*;
use crate::text::{is_blank, is_blank_chars, str_eq};

verus! {

/// The environment variables visible to a command, in the order they were
/// recorded; names whose value is not valid Unicode are kept apart.
pub struct EnvSnapshot {
    vars: Vec<(String, String)>,
    not_unicode: Vec<String>,
}

/// The value of an environment snapshot.
pub struct EnvSnapshotView {
    pub vars: Seq<(Seq<char>, Seq<char>)>,
    pub not_unicode: Seq<Seq<char>>,
}

/// The value recorded last for `name`, if any.
pub open spec fn lookup(vars: Seq<(Seq<char>, Seq<char>)>, name: Seq<char>) -> Option<Seq<char>>
    decreases vars.len(),
{
    if vars.len() == 0 {
        None
    } else if vars.last().0 == name {
        Some(vars.last().1)
    } else {
        lookup(vars.drop_last(), name)
    }
}

/// A value that is present and not blank.
pub open spec fn non_blank(value: Option<Seq<char>>) -> Option<Seq<char>> {
    match value {
        Some(v) => if is_blank_chars(v) {
            None
        } else {
            Some(v)
        },
        None => None,
    }
}

/// The value of an optional string.
pub open spec fn opt_view(o: Option<String>) -> Option<Seq<char>> {
    match o {
        Some(s) => Some(s@),
        None => None,
    }
}

/// The value of an optional string slice.
pub open spec fn opt_str_view(o: Option<&str>) -> Option<Seq<char>> {
    match o {
        Some(s) => Some(s@),
        None => None,
    }
}

impl View for EnvSnapshot {
    type V = EnvSnapshotView;

    closed spec fn view(&self) -> EnvSnapshotView {
        EnvSnapshotView {
            vars: self.vars@.map_values(|p: (String, String)| (p.0@, p.1@)),
            not_unicode: self.not_unicode.deep_view(),
        }
    }
}

impl EnvSnapshotView {
    /// The value of `name`, as `std::env::var(name).ok()` reads it.
    pub open spec fn var(self, name: Seq<char>) -> Option<Seq<char>> {
        lookup(self.vars, name)
    }

    /// The value of `name` when it is present and not blank.
    pub open spec fn non_blank_var(self, name: Seq<char>) -> Option<Seq<char>> {
        non_blank(self.var(name))
    }
}

impl EnvSnapshot {
    /// An environment with no variables.
    pub fn new() -> (r: Self)
        ensures
            r@.vars == Seq::<(Seq<char>, Seq<char>)>::empty(),
            r@.not_unicode == Seq::<Seq<char>>::empty(),
    {
        let r = EnvSnapshot { vars: Vec::new(), not_unicode: Vec::new() };
        assert(r@.vars =~= Seq::<(Seq<char>, Seq<char>)>::empty());
        assert(r@.not_unicode =~= Seq::<Seq<char>>::empty());
        r
    }

    /// Records `name` with `value`; a later record of a name wins.
    pub fn set(&mut self, name: &str, value: &str)
        ensures
            final(self)@.vars == old(self)@.vars.push((name@, value@)),
            final(self)@.not_unicode == old(self)@.not_unicode,
    {
        let ghost before = self@;
        self.vars.push((name.to_owned(), value.to_owned()));
        assert(self@.vars =~= before.vars.push((name@, value@)));
    }

    /// Records that `name` is set to a value that is not valid Unicode.
    pub fn set_not_unicode(&mut self, name: &str)
        ensures
            final(self)@.vars == old(self)@.vars,
            final(self)@.not_unicode == old(self)@.not_unicode.push(name@),
    {
        let ghost before = self@;
        self.not_unicode.push(name.to_owned());
        assert(self@.not_unicode =~= before.not_unicode.push(name@));
    }

    /// The value of `name`.
    pub fn var(&self, name: &str) -> (r: Option<String>)
        ensures
            opt_view(r) == self@.var(name@),
    {
        let ghost all = self@.vars;
        let mut i = self.vars.len();
        assert(all.take(i as int) =~= all);
        while i > 0
            invariant
                i <= self.vars.len(),
                all == self@.vars,
                lookup(all, name@) == lookup(all.take(i as int), name@),
            decreases i,
        {
            let ghost prefix = all.take(i as int);
            assert(prefix.drop_last() =~= all.take(i - 1));
            assert(prefix.last() == (self.vars@[i - 1].0@, self.vars@[i - 1].1@));
            if str_eq(self.vars[i - 1].0.as_str(), name) {
                return Some(self.vars[i - 1].1.clone());
            }
            i -= 1;
        }
        None
    }

    /// The value of `name` when it is present and not blank.
    pub fn non_blank_var(&self, name: &str) -> (r: Option<String>)
        ensures
            opt_view(r) == self@.non_blank_var(name@),
    {
        match self.var(name) {
            Some(v) => if is_blank(v.as_str()) {
                None
            } else {
                Some(v)
            },
            None => None,
        }
    }

    /// Whether `name` was recorded as set to a value that is not valid Unicode.
    pub fn is_not_unicode(&self, name: &str) -> (r: bool)
        ensures
            r == self@.not_unicode.contains(name@),
    {
        let mut i: usize = 0;
        while i < self.not_unicode.len()
            invariant
                i <= self.not_unicode.len(),
                forall|k: int| 0 <= k < i ==> self@.not_unicode[k] != name@,
            decreases self.not_unicode.len() - i,
        {
            if str_eq(self.not_unicode[i].as_str(), name) {
                assert(self@.not_unicode[i as int] == name@);
                return true;
            }
            i += 1;
        }
        false
    }
}

} // verus!
