//! Compiled command patterns.
//!
//! A pattern is a regular expression used both as a registry key and as the
//! live matching rule against message text. Compiling and matching is the
//! regex crate's job and stands behind trusted items; everything downstream
//! speaks of the named match result `regex_captures`.

use vstd::prelude::*;
use crate::errors::InvalidPatternError;

verus! {

/// Whether `p` is valid regular-expression syntax. Names the success of
/// `regex::Regex::new` on `p`, which depends on the pattern text alone.
pub uninterp spec fn regex_ok(p: Seq<char>) -> bool;

/// The capture groups of the leftmost match of pattern `p` anywhere in text
/// `t`: `None` when `p` matches nowhere in `t`; otherwise one entry per
/// capture group of `p`, group 0 being the overall match and groups that
/// took no part in the match being `None`. Names the result of
/// `regex::Regex::captures`, which depends on the pattern and the text
/// alone.
pub uninterp spec fn regex_captures(p: Seq<char>, t: Seq<char>) -> Option<Seq<Option<Seq<char>>>>;

/// Whether pattern `p` matches anywhere in text `t` (a search, not a full
/// match).
pub open spec fn regex_matches(p: Seq<char>, t: Seq<char>) -> bool {
    regex_captures(p, t) is Some
}

#[verifier::external_type_specification]
#[verifier::external_body]
pub struct ExRegex(regex::Regex);

/// A compiled pattern together with the source text it was compiled from.
/// Built only by `compile`, so the compiled part always stems from
/// `source`.
pub struct CompiledPattern {
    source: String,
    regex: regex::Regex,
}

impl CompiledPattern {
    /// The pattern source text this value was compiled from.
    pub closed spec fn spec_source(&self) -> Seq<char> {
        self.source@
    }

    /// The pattern source text this value was compiled from.
    pub fn source(&self) -> (r: &String)
        ensures
            r@ == self.spec_source(),
    {
        &self.source
    }

    /// Relies on `regex::Regex::new`: compilation succeeds exactly when the
    /// pattern is valid regular-expression syntax, and depends on the
    /// pattern text alone.
    #[verifier::external_body]
    pub(crate) fn compile(pattern: &str) -> (r: Result<CompiledPattern, InvalidPatternError>)
        ensures
            r is Ok <==> regex_ok(pattern@),
            r matches Ok(p) ==> p.spec_source() == pattern@,
    {
        match regex::Regex::new(pattern) {
            Ok(regex) => Ok(CompiledPattern { source: pattern.to_string(), regex }),
            Err(_) => Err(InvalidPatternError),
        }
    }

    /// Relies on `regex::Regex::captures` (`Some` exactly when the pattern
    /// matches anywhere in the text) and `regex::Captures::iter` (one entry
    /// per capture group, group 0 the overall match).
    #[verifier::external_body]
    pub(crate) fn captures(&self, text: &str) -> (r: Option<Vec<Option<String>>>)
        ensures
            r.deep_view() == regex_captures(self.spec_source(), text@),
    {
        self.regex.captures(text).map(|c| {
            c.iter().map(|g| g.map(|m| m.as_str().to_string())).collect()
        })
    }
}

} // verus!
