//! The command registry: an ordered table of (pattern, handler) entries.
//!
//! Patterns are compiled at registration time, so a bad pattern fails the
//! registration call and can never silently disable dispatch mid-run.
//! Iteration order is insertion order; the dispatcher relies on it as the
//! order in which multiple matching handlers are invoked.

use vstd::prelude::*;
use crate::errors::InvalidPatternError;
use crate::pattern::{regex_ok, CompiledPattern};
use crate::strutil::string_eq_str;

verus! {

/// The first position at or after `i` where `p` stands in `ps`.
pub open spec fn first_index_from(ps: Seq<Seq<char>>, p: Seq<char>, i: int) -> Option<int>
    decreases ps.len() - i when 0 <= i <= ps.len()
{
    if i < 0 || i >= ps.len() {
        None
    } else if ps[i] == p {
        Some(i)
    } else {
        first_index_from(ps, p, i + 1)
    }
}

/// The position of the entry registered under `p`, if one is.
pub open spec fn first_index_of(ps: Seq<Seq<char>>, p: Seq<char>) -> Option<int> {
    first_index_from(ps, p, 0)
}

proof fn lemma_first_index_found(ps: Seq<Seq<char>>, p: Seq<char>, i: int, k: int)
    requires
        0 <= i <= k < ps.len(),
        ps[k] == p,
        forall|j: int| i <= j < k ==> ps[j] != p,
    ensures
        first_index_from(ps, p, i) == Some(k),
    decreases k - i,
{
    if i < k {
        lemma_first_index_found(ps, p, i + 1, k);
    }
}

proof fn lemma_first_index_absent(ps: Seq<Seq<char>>, p: Seq<char>, i: int)
    requires
        0 <= i <= ps.len(),
        forall|j: int| i <= j < ps.len() ==> ps[j] != p,
    ensures
        first_index_from(ps, p, i) is None,
    decreases ps.len() - i,
{
    if i < ps.len() {
        lemma_first_index_absent(ps, p, i + 1);
    }
}

/// An ordered mapping from a command pattern to a handler capability,
/// built once at startup and read-only during message processing.
pub struct CommandRegistry<H> {
    entries: Vec<(CompiledPattern, H)>,
}

impl<H> CommandRegistry<H> {
    /// The registered pattern sources, in registration order.
    pub closed spec fn patterns(&self) -> Seq<Seq<char>> {
        self.entries@.map_values(|e: (CompiledPattern, H)| e.0.spec_source())
    }

    /// The registered handlers, in registration order.
    pub closed spec fn handlers(&self) -> Seq<H> {
        self.entries@.map_values(|e: (CompiledPattern, H)| e.1)
    }

    /// An empty registry.
    pub fn new() -> (r: Self)
        ensures
            r.patterns() == Seq::<Seq<char>>::empty(),
            r.handlers() == Seq::<H>::empty(),
    {
        let r = CommandRegistry { entries: Vec::new() };
        proof {
            assert(r.patterns() =~= Seq::<Seq<char>>::empty());
            assert(r.handlers() =~= Seq::<H>::empty());
        }
        r
    }

    /// The number of registered entries.
    pub fn len(&self) -> (r: usize)
        ensures
            r == self.patterns().len(),
            self.handlers().len() == self.patterns().len(),
    {
        self.entries.len()
    }

    /// Registers `handler` under `pattern`. A pattern is a unique key: a
    /// new one is appended to the table, while registering an already
    /// registered pattern hands its entry — in place, keeping its
    /// position — to the new handler. Fails with `InvalidPatternError`,
    /// leaving the registry unchanged, exactly when the pattern does not
    /// compile as a regular expression.
    pub fn register(&mut self, pattern: &str, handler: H) -> (r: Result<(), InvalidPatternError>)
        ensures
            r is Ok <==> regex_ok(pattern@),
            r is Err ==> *final(self) == *old(self),
            r is Ok ==> match first_index_of(old(self).patterns(), pattern@) {
                Some(k) => final(self).patterns() == old(self).patterns()
                    && final(self).handlers() == old(self).handlers().update(k, handler),
                None => final(self).patterns() == old(self).patterns().push(pattern@)
                    && final(self).handlers() == old(self).handlers().push(handler),
            },
    {
        let compiled = match CompiledPattern::compile(pattern) {
            Ok(c) => c,
            Err(e) => return Err(e),
        };
        let n = self.entries.len();
        let mut i: usize = 0;
        while i < n
            invariant
                n == self.patterns().len(),
                i <= n,
                *self == *old(self),
                regex_ok(pattern@),
                compiled.spec_source() == pattern@,
                forall|j: int| 0 <= j < i ==> self.patterns()[j] != pattern@,
            decreases n - i,
        {
            if string_eq_str(self.entries[i].0.source(), pattern) {
                let (existing, _) = self.entries.remove(i);
                self.entries.insert(i, (existing, handler));
                proof {
                    lemma_first_index_found(old(self).patterns(), pattern@, 0, i as int);
                    assert(self.patterns() =~= old(self).patterns());
                    assert(self.handlers() =~= old(self).handlers().update(i as int, handler));
                }
                return Ok(());
            }
            i += 1;
        }
        self.entries.push((compiled, handler));
        proof {
            lemma_first_index_absent(old(self).patterns(), pattern@, 0);
            assert(self.patterns() =~= old(self).patterns().push(pattern@));
            assert(self.handlers() =~= old(self).handlers().push(handler));
        }
        Ok(())
    }

    /// The full table: every (pattern, handler) entry, in registration
    /// order.
    pub fn entries(&self) -> (r: Vec<(&String, &H)>)
        ensures
            r@.len() == self.patterns().len(),
            forall|i: int| 0 <= i < r@.len()
                ==> (#[trigger] r@[i]).0@ == self.patterns()[i]
                    && *r@[i].1 == self.handlers()[i],
    {
        let mut r: Vec<(&String, &H)> = Vec::new();
        let n = self.entries.len();
        let mut i: usize = 0;
        while i < n
            invariant
                n == self.patterns().len(),
                i <= n,
                r@.len() == i,
                forall|j: int| 0 <= j < i
                    ==> (#[trigger] r@[j]).0@ == self.patterns()[j]
                        && *r@[j].1 == self.handlers()[j],
            decreases n - i,
        {
            r.push((self.entries[i].0.source(), &self.entries[i].1));
            i += 1;
        }
        r
    }

    /// The compiled pattern of entry `i`.
    pub(crate) fn pattern_at(&self, i: usize) -> (r: &CompiledPattern)
        requires
            i < self.patterns().len(),
        ensures
            r.spec_source() == self.patterns()[i as int],
    {
        &self.entries[i].0
    }

    /// The pattern source text of entry `i`, in registration order.
    pub fn pattern_source_at(&self, i: usize) -> (r: &String)
        requires
            i < self.patterns().len(),
        ensures
            r@ == self.patterns()[i as int],
    {
        self.entries[i].0.source()
    }

    /// The handler of entry `i`, in registration order.
    pub fn handler_at(&self, i: usize) -> (r: &H)
        requires
            i < self.patterns().len(),
        ensures
            *r == self.handlers()[i as int],
    {
        &self.entries[i].1
    }
}

} // verus!
