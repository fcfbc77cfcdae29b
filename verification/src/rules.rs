//! The ignore-rule store: parsing `.gitignore` text into rule lines and
//! answering whether a base name is ignored by the accumulated rules.
//!
//! The `.gitignore` model is a deliberately simplified subset: blank lines
//! and lines starting with `#` are dropped, every other line is kept
//! verbatim. A rule ending in `/` is a bare directory-name equality check
//! (against the trailing-slash-stripped rule); any other rule is a glob
//! pattern matched against a base name only.

use vstd::prelude::*;

use crate::pattern::{glob_matches, spec_glob_matches};

verus! {

/// The index of the first `'\n'` in `s`, or `s.len()` when there is none.
pub open spec fn spec_first_nl(s: Seq<char>) -> int
    decreases s.len(),
{
    if s.len() == 0 {
        0
    } else if s[0] == '\n' {
        0
    } else {
        1 + spec_first_nl(s.drop_first())
    }
}

/// `spec_first_nl` is exactly the least index holding `'\n'` (or the length).
proof fn lemma_first_nl_is(s: Seq<char>, k: int)
    requires
        0 <= k <= s.len(),
        forall|j: int| 0 <= j < k ==> s[j] != '\n',
        k < s.len() ==> s[k] == '\n',
    ensures
        spec_first_nl(s) == k,
    decreases s.len(),
{
    if s.len() == 0 {
    } else if s[0] == '\n' {
        assert(k == 0);
    } else {
        assert(k >= 1);
        let t = s.drop_first();
        assert(forall|j: int| 0 <= j < k - 1 ==> t[j] == s[j + 1] && t[j] != '\n');
        lemma_first_nl_is(t, k - 1);
    }
}

/// A line with a trailing carriage return loses it, so Windows line
/// endings do not leak into the rules.
pub open spec fn spec_strip_cr(l: Seq<char>) -> Seq<char> {
    if l.len() > 0 && l[l.len() - 1] == '\r' {
        l.drop_last()
    } else {
        l
    }
}

/// A parsed line is kept as a rule unless it is blank or a `#` comment.
pub open spec fn spec_is_rule_line(l: Seq<char>) -> bool {
    l.len() > 0 && l[0] != '#'
}

/// The rules read from `.gitignore` text `s`: its lines in order, each
/// stripped of a trailing carriage return, blank lines and `#` comments
/// dropped, everything else verbatim.
pub open spec fn spec_parse_rules(s: Seq<char>) -> Seq<Seq<char>>
    decreases s.len(),
{
    if s.len() == 0 {
        seq![]
    } else {
        let i = spec_first_nl(s);
        if 0 <= i < s.len() {
            let l = spec_strip_cr(s.take(i));
            (if spec_is_rule_line(l) {
                seq![l]
            } else {
                seq![]
            }) + spec_parse_rules(s.skip(i + 1))
        } else {
            let l = spec_strip_cr(s);
            if spec_is_rule_line(l) {
                seq![l]
            } else {
                seq![]
            }
        }
    }
}

/// Compares two string slices character by character.
pub fn str_eq(a: &str, b: &str) -> (r: bool)
    ensures
        r == (a@ == b@),
{
    let na = a.unicode_len();
    let nb = b.unicode_len();
    if na != nb {
        return false;
    }
    let mut i: usize = 0;
    while i < na
        invariant
            na == a@.len(),
            na == b@.len(),
            0 <= i <= na,
            forall|j: int| 0 <= j < i ==> a@[j] == b@[j],
        decreases na - i,
    {
        if a.get_char(i) != b.get_char(i) {
            return false;
        }
        i += 1;
    }
    proof {
        assert(a@ =~= b@);
    }
    true
}

/// Whether one rule shuts out the base name `name`: a rule with a trailing
/// slash by equality with its stem, any other rule as a glob pattern (a
/// malformed pattern matches nothing).
pub open spec fn spec_rule_matches(rule: Seq<char>, name: Seq<char>) -> bool {
    if rule.len() > 0 && rule[rule.len() - 1] == '/' {
        name == rule.take(rule.len() - 1)
    } else {
        spec_glob_matches(rule, name)
    }
}

/// Whether some accumulated rule shuts out the base name `name`.
pub open spec fn spec_ignored(rules: Seq<Seq<char>>, name: Seq<char>) -> bool {
    exists|k: int| 0 <= k < rules.len() && spec_rule_matches(rules[k], name)
}

/// Decides whether the accumulated `.gitignore` rules mark the base name
/// `name` as ignored.
pub fn should_ignore(name: &str, rules: &Vec<String>) -> (r: bool)
    ensures
        r == spec_ignored(rules.deep_view(), name@),
{
    let ghost grules = rules.deep_view();
    let n = rules.len();
    let mut k: usize = 0;
    while k < n
        invariant
            n == rules.len(),
            grules == rules.deep_view(),
            grules.len() == n,
            forall|j: int| 0 <= j < k ==> !spec_rule_matches(grules[j], name@),
            forall|j: int| 0 <= j < n ==> grules[j] == rules@[j]@,
        decreases n - k,
    {
        let rule = rules[k].as_str();
        let rl = rule.unicode_len();
        let matched: bool = if rl > 0 && rule.get_char(rl - 1) == '/' {
            let stem = rule.substring_char(0, rl - 1);
            str_eq(name, stem)
        } else {
            glob_matches(rule, name)
        };
        if matched {
            assert(spec_rule_matches(grules[k as int], name@));
            return true;
        }
        k += 1;
    }
    false
}

/// Appends the rules parsed from the suffix of `text` starting at character
/// `pos` to `rules`.
fn parse_rules_from(text: &str, pos: usize, rules: &mut Vec<String>)
    requires
        pos <= text@.len(),
    ensures
        final(rules).deep_view() == old(rules).deep_view() + spec_parse_rules(text@.skip(pos as int)),
    decreases text@.len() - pos,
{
    let ghost s = text@.skip(pos as int);
    let n = text.unicode_len();
    if pos >= n {
        proof {
            assert(rules.deep_view() =~= rules.deep_view() + spec_parse_rules(s));
        }
        return;
    }
    // Find the first newline at or after `pos`.
    let mut i: usize = pos;
    while i < n && text.get_char(i) != '\n'
        invariant
            n == text@.len(),
            pos <= i <= n,
            forall|j: int| pos <= j < i ==> text@[j] != '\n',
        decreases n - i,
    {
        i += 1;
    }
    proof {
        assert(forall|j: int| 0 <= j < i - pos ==> s[j] == text@[j + pos] && s[j] != '\n');
        assert(i - pos < s.len() ==> s[i - pos] == '\n');
        lemma_first_nl_is(s, i - pos);
    }
    // The line runs from `pos` to the newline (or the end), minus a
    // trailing carriage return.
    let end: usize = if i > pos && text.get_char(i - 1) == '\r' {
        i - 1
    } else {
        i
    };
    let line = text.substring_char(pos, end);
    proof {
        if i < n {
            assert(line@ =~= spec_strip_cr(s.take(i - pos)));
        } else {
            assert(s.take(i - pos) =~= s);
            assert(line@ =~= spec_strip_cr(s));
        }
    }
    let ll = line.unicode_len();
    if ll > 0 && line.get_char(0) != '#' {
        rules.push(String::from_str(line));
        proof {
            assert(rules.deep_view() =~= old(rules).deep_view() + seq![line@]);
        }
    } else {
        proof {
            assert(rules.deep_view() =~= old(rules).deep_view() + Seq::<Seq<char>>::empty());
        }
    }
    if i < n {
        parse_rules_from(text, i + 1, rules);
        proof {
            assert(text@.skip(i + 1) =~= s.skip(i - pos + 1));
            assert(rules.deep_view() =~= old(rules).deep_view() + spec_parse_rules(s));
        }
    } else {
        proof {
            assert(rules.deep_view() =~= old(rules).deep_view() + spec_parse_rules(s));
        }
    }
}

/// Appends every rule found in the `.gitignore` text `text` to `rules`.
pub fn add_gitignore_text(text: &str, rules: &mut Vec<String>)
    ensures
        final(rules).deep_view() == old(rules).deep_view() + spec_parse_rules(text@),
{
    parse_rules_from(text, 0, rules);
    proof {
        assert(text@.skip(0) =~= text@);
    }
}

} // verus!
