//! The per-candidate filters of the traversal engine: hidden-name exclusion,
//! the user-supplied ignore globs, the extension allow-list, and the
//! combined emit decision applied to every file reached through directory
//! recursion (explicitly named files bypass all of them).

use vstd::prelude::*;

use crate::Config;
use crate::SpecConfig;
use crate::pattern::{glob_matches, lower_of, spec_glob_matches, to_lowercase};
use crate::rules::{should_ignore, spec_ignored, str_eq};

verus! {

/// A base name is hidden when it starts with `.`.
pub open spec fn spec_is_hidden(name: Seq<char>) -> bool {
    name.len() > 0 && name[0] == '.'
}

/// Whether a file's base name marks it hidden.
pub fn is_hidden_file(name: &str) -> (r: bool)
    ensures
        r == spec_is_hidden(name@),
{
    name.unicode_len() > 0 && name.get_char(0) == '.'
}

/// Whether a directory's base name marks it hidden.
pub fn is_hidden_dir(name: &str) -> (r: bool)
    ensures
        r == spec_is_hidden(name@),
{
    name.unicode_len() > 0 && name.get_char(0) == '.'
}

/// The index of the last `'.'` in `s`, or `-1` when there is none.
pub open spec fn spec_last_dot(s: Seq<char>) -> int
    decreases s.len(),
{
    if s.len() == 0 {
        -1
    } else if s[s.len() - 1] == '.' {
        s.len() - 1
    } else {
        spec_last_dot(s.drop_last())
    }
}

/// `spec_last_dot` is exactly the greatest index holding `'.'` (or `-1`).
proof fn lemma_last_dot_is(s: Seq<char>, d: int)
    requires
        -1 <= d < s.len(),
        forall|j: int| d < j < s.len() ==> s[j] != '.',
        d >= 0 ==> s[d] == '.',
    ensures
        spec_last_dot(s) == d,
    decreases s.len(),
{
    if s.len() == 0 {
    } else if s[s.len() - 1] == '.' {
        assert(d == s.len() - 1);
    } else {
        assert(d < s.len() - 1);
        lemma_last_dot_is(s.drop_last(), d);
    }
}

/// The extension of a base name: the characters after the last `'.'`,
/// provided that dot exists and is not the leading character (so a name
/// with no dot, and a hidden name with no further dot, have none).
pub open spec fn spec_extension(name: Seq<char>) -> Option<Seq<char>> {
    let d = spec_last_dot(name);
    if d <= 0 {
        None
    } else {
        Some(name.skip(d + 1))
    }
}

/// Whether `name`'s extension is in the allow-list `exts`, compared
/// case-insensitively; a name without an extension never qualifies.
pub open spec fn spec_has_extension(name: Seq<char>, exts: Seq<Seq<char>>) -> bool {
    match spec_extension(name) {
        Option::None => false,
        Option::Some(e) => exists|k: int|
            0 <= k < exts.len() && lower_of(exts[k]) == lower_of(e),
    }
}

/// Decides whether `name`'s extension (case-insensitively) is in the
/// allow-list `extensions`.
pub fn has_extension(name: &str, extensions: &Vec<String>) -> (r: bool)
    ensures
        r == spec_has_extension(name@, extensions.deep_view()),
{
    let n = name.unicode_len();
    // Search for the last dot.
    let mut i: usize = n;
    while i > 0 && name.get_char(i - 1) != '.'
        invariant
            n == name@.len(),
            0 <= i <= n,
            forall|j: int| i <= j < n ==> name@[j] != '.',
        decreases i,
    {
        i -= 1;
    }
    proof {
        lemma_last_dot_is(name@, i - 1);
    }
    if i <= 1 {
        // No dot, or only a leading one: no extension.
        return false;
    }
    let ext = name.substring_char(i, n);
    proof {
        assert(ext@ =~= name@.skip(i as int));
    }
    let ext_lower = to_lowercase(ext);
    let ghost gexts = extensions.deep_view();
    let m = extensions.len();
    let mut k: usize = 0;
    while k < m
        invariant
            m == extensions.len(),
            gexts == extensions.deep_view(),
            gexts.len() == m,
            forall|j: int| 0 <= j < m ==> gexts[j] == extensions@[j]@,
            forall|j: int| 0 <= j < k ==> lower_of(gexts[j]) != lower_of(ext@),
            ext_lower@ == lower_of(ext@),
            spec_extension(name@) == Option::Some(ext@),
        decreases m - k,
    {
        let e_lower = to_lowercase(extensions[k].as_str());
        if str_eq(e_lower.as_str(), ext_lower.as_str()) {
            proof {
                assert(lower_of(gexts[k as int]) == lower_of(ext@));
                assert(spec_extension(name@) == Option::Some(ext@));
                assert(spec_has_extension(name@, gexts));
            }
            return true;
        }
        k += 1;
    }
    false
}

/// Whether some user-supplied ignore glob matches the base name `name`.
pub open spec fn spec_pattern_ignored(patterns: Seq<Seq<char>>, name: Seq<char>) -> bool {
    exists|k: int| 0 <= k < patterns.len() && spec_glob_matches(patterns[k], name)
}

/// Decides whether any user-supplied `--ignore` glob matches the base name
/// `name`.
pub fn should_ignore_pattern(name: &str, patterns: &Vec<String>) -> (r: bool)
    ensures
        r == spec_pattern_ignored(patterns.deep_view(), name@),
{
    let ghost gpats = patterns.deep_view();
    let m = patterns.len();
    let mut k: usize = 0;
    while k < m
        invariant
            m == patterns.len(),
            gpats == patterns.deep_view(),
            gpats.len() == m,
            forall|j: int| 0 <= j < m ==> gpats[j] == patterns@[j]@,
            forall|j: int| 0 <= j < k ==> !spec_glob_matches(gpats[j], name@),
        decreases m - k,
    {
        if glob_matches(patterns[k].as_str(), name) {
            assert(spec_glob_matches(gpats[k as int], name@));
            return true;
        }
        k += 1;
    }
    false
}

/// The emit decision for a file reached through directory recursion, in the
/// fixed filter order: not hidden (unless hidden files are included), not
/// shut out by the accumulated `.gitignore` rules (unless those are
/// disabled), not matched by a user ignore glob, and holding an allowed
/// extension whenever an allow-list is configured.
pub open spec fn spec_emits(cfg: SpecConfig, rules: Seq<Seq<char>>, name: Seq<char>) -> bool {
    &&& (cfg.include_hidden || !spec_is_hidden(name))
    &&& (cfg.ignore_gitignore || !spec_ignored(rules, name))
    &&& !spec_pattern_ignored(cfg.ignore_patterns, name)
    &&& (cfg.extensions.len() == 0 || spec_has_extension(name, cfg.extensions))
}

/// Decides whether a file with base name `name`, reached through directory
/// recursion, passes every configured filter.
pub fn emits_file(cfg: &Config, rules: &Vec<String>, name: &str) -> (r: bool)
    ensures
        r == spec_emits(cfg@, rules.deep_view(), name@),
{
    if !cfg.include_hidden && is_hidden_file(name) {
        return false;
    }
    if !cfg.ignore_gitignore && should_ignore(name, rules) {
        return false;
    }
    if should_ignore_pattern(name, &cfg.ignore_patterns) {
        return false;
    }
    if cfg.extensions.len() > 0 && !has_extension(name, &cfg.extensions) {
        return false;
    }
    true
}

} // verus!
