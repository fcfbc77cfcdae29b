//! Shell-glob matching of a base name against a pattern string, and
//! case-insensitive comparison support. The glob semantics themselves
//! (`*`, `?`, `[...]`) come from the `glob` crate; a malformed pattern is
//! treated as matching nothing, so a bad user-supplied pattern never aborts
//! a run.

use vstd::prelude::*;

verus! {

/// What compiling `pattern` and matching it against `name` yields:
/// `None` when the pattern is malformed, otherwise `Some` of whether the
/// name matches. Both steps depend on the two strings alone.
pub uninterp spec fn glob_match_result(pattern: Seq<char>, name: Seq<char>) -> Option<bool>;

/// Relies on glob::Pattern::new and glob::Pattern::matches: `new` parses the
/// pattern string and fails exactly on malformed patterns; `matches` checks
/// the name against the compiled pattern. Both are pure functions of their
/// string arguments.
#[verifier::external_body]
fn try_glob_match(pattern: &str, name: &str) -> (r: Option<bool>)
    ensures
        r == glob_match_result(pattern@, name@),
{
    match glob::Pattern::new(pattern) {
        Ok(p) => Some(p.matches(name)),
        Err(_) => None,
    }
}

/// Whether `name` matches the glob `pattern`, with a malformed pattern
/// matching nothing.
pub open spec fn spec_glob_matches(pattern: Seq<char>, name: Seq<char>) -> bool {
    match glob_match_result(pattern, name) {
        Some(b) => b,
        None => false,
    }
}

/// Matches `name` against the glob `pattern`; a malformed pattern matches
/// nothing rather than raising an error.
pub fn glob_matches(pattern: &str, name: &str) -> (r: bool)
    ensures
        r == spec_glob_matches(pattern@, name@),
{
    match try_glob_match(pattern, name) {
        Some(b) => b,
        None => false,
    }
}

/// What lowercasing a string yields; the result depends on the characters
/// alone.
pub uninterp spec fn lower_of(s: Seq<char>) -> Seq<char>;

/// Relies on str::to_lowercase: the lowercase equivalent of the string,
/// a function of its characters alone.
#[verifier::external_body]
pub(crate) fn to_lowercase(s: &str) -> (r: String)
    ensures
        r@ == lower_of(s@),
{
    s.to_lowercase()
}

} // verus!
