//! The filtering and rendering laws of the traversal engine, stated over the
//! walk's mathematical model and proved once for all inputs.

use vstd::prelude::*;

use crate::SpecConfig;
use crate::filters::{spec_emits, spec_has_extension, spec_is_hidden, spec_pattern_ignored};
use crate::format::{spec_skip_warning, spec_xml_block};
use crate::rules::spec_ignored;
use crate::walk::{
    FsEntry, FsNode, InputPath, SpecDoc, SpecState, spec_child_path, spec_load_dir_rules,
    spec_invalid_reason, spec_output, spec_render_from, spec_run, spec_walk_entry, spec_walk_from,
};

verus! {

/// A hidden entry reached through directory recursion is passed over
/// entirely when hidden entries are excluded: a hidden file is not emitted,
/// and a hidden directory is pruned before anything inside it — its
/// `.gitignore` included — can contribute, so the whole walk state is
/// unchanged.
pub proof fn lemma_hidden_entry_excluded(cfg: SpecConfig, st: SpecState, entry: FsEntry, dir_path: Seq<char>)
    requires
        !cfg.include_hidden,
        spec_is_hidden(entry.name@),
    ensures
        spec_walk_entry(cfg, st, entry, dir_path) == st,
{
    assert(spec_walk_entry(cfg, st, entry, dir_path) =~= st);
}

/// A readable file that passes every configured filter — hidden names
/// allowed or the name not hidden, `.gitignore` filtering disabled or no
/// accumulated rule matching, no user ignore glob matching, and the
/// extension allow-list empty or satisfied — is emitted, with the
/// directory's path joined to its base name, and nothing else changes.
pub proof fn lemma_passing_file_emitted(cfg: SpecConfig, st: SpecState, entry: FsEntry, dir_path: Seq<char>, c: String)
    requires
        entry.node == (FsNode::File { content: Option::Some(c) }),
        cfg.include_hidden || !spec_is_hidden(entry.name@),
        cfg.ignore_gitignore || !spec_ignored(st.rules, entry.name@),
        !spec_pattern_ignored(cfg.ignore_patterns, entry.name@),
        cfg.extensions.len() == 0 || spec_has_extension(entry.name@, cfg.extensions),
    ensures
        spec_walk_entry(cfg, st, entry, dir_path) == (SpecState {
            docs: st.docs.push(
                SpecDoc { path: spec_child_path(dir_path, entry.name@), content: c@ },
            ),
            ..st
        }),
{
    assert(spec_emits(cfg, st.rules, entry.name@));
    assert(spec_walk_entry(cfg, st, entry, dir_path) =~= SpecState {
        docs: st.docs.push(SpecDoc { path: spec_child_path(dir_path, entry.name@), content: c@ }),
        ..st
    });
}

/// A file matching an accumulated `.gitignore` rule is excluded while
/// `.gitignore` filtering is enabled.
pub proof fn lemma_gitignored_file_excluded(cfg: SpecConfig, st: SpecState, entry: FsEntry, dir_path: Seq<char>, content: Option<String>)
    requires
        entry.node == (FsNode::File { content }),
        !cfg.ignore_gitignore,
        spec_ignored(st.rules, entry.name@),
    ensures
        spec_walk_entry(cfg, st, entry, dir_path) == st,
{
    assert(spec_walk_entry(cfg, st, entry, dir_path) =~= st);
}

/// A file matching a user-supplied ignore glob is excluded regardless of
/// every other flag and filter.
pub proof fn lemma_pattern_file_excluded(cfg: SpecConfig, st: SpecState, entry: FsEntry, dir_path: Seq<char>, content: Option<String>)
    requires
        entry.node == (FsNode::File { content }),
        spec_pattern_ignored(cfg.ignore_patterns, entry.name@),
    ensures
        spec_walk_entry(cfg, st, entry, dir_path) == st,
{
    assert(spec_walk_entry(cfg, st, entry, dir_path) =~= st);
}

/// When an extension allow-list is configured, a file whose extension is
/// not in it — a file with no extension included — is excluded.
pub proof fn lemma_extension_file_excluded(cfg: SpecConfig, st: SpecState, entry: FsEntry, dir_path: Seq<char>, content: Option<String>)
    requires
        entry.node == (FsNode::File { content }),
        cfg.extensions.len() > 0,
        !spec_has_extension(entry.name@, cfg.extensions),
    ensures
        spec_walk_entry(cfg, st, entry, dir_path) == st,
{
    assert(spec_walk_entry(cfg, st, entry, dir_path) =~= st);
}

/// With hidden entries included, a directory reached through recursion is
/// entered rather than pruned: its own `.gitignore` joins the rule store
/// and its entries are walked under its path — unless the accumulated
/// rules ignore the directory's name while `.gitignore` filtering is on.
pub proof fn lemma_dir_descends(cfg: SpecConfig, st: SpecState, entry: FsEntry, dir_path: Seq<char>, children: Vec<FsEntry>)
    requires
        entry.node == (FsNode::Dir { entries: children }),
        cfg.include_hidden || !spec_is_hidden(entry.name@),
    ensures
        ({
            let st1 = spec_load_dir_rules(cfg, st, children@);
            spec_walk_entry(cfg, st, entry, dir_path) == if !cfg.ignore_gitignore
                && spec_ignored(st1.rules, entry.name@) {
                st1
            } else {
                spec_walk_from(cfg, st1, children@, 0, spec_child_path(dir_path, entry.name@))
            }
        }),
{
}

/// The walk only appends: every rule, document and warning present when a
/// subtree is entered is still there, in place, when it is left. In
/// particular a rule loaded from a `.gitignore` in an ancestor — or any
/// earlier-visited — directory stays active for the rest of the run.
pub proof fn lemma_walk_from_monotone(cfg: SpecConfig, st: SpecState, entries: Seq<FsEntry>, i: int, dir_path: Seq<char>)
    ensures
        st.rules.is_prefix_of(spec_walk_from(cfg, st, entries, i, dir_path).rules),
        st.docs.is_prefix_of(spec_walk_from(cfg, st, entries, i, dir_path).docs),
        st.warnings.is_prefix_of(spec_walk_from(cfg, st, entries, i, dir_path).warnings),
    decreases entries, entries.len() - i,
{
    if i < 0 || i >= entries.len() {
        lemma_prefix_refl(st.rules);
        lemma_prefix_refl(st.docs);
        lemma_prefix_refl(st.warnings);
    } else {
        let st1 = spec_walk_entry(cfg, st, entries[i], dir_path);
        lemma_walk_entry_monotone(cfg, st, entries[i], dir_path);
        lemma_walk_from_monotone(cfg, st1, entries, i + 1, dir_path);
        let r = spec_walk_from(cfg, st1, entries, i + 1, dir_path);
        lemma_prefix_trans(st.rules, st1.rules, r.rules);
        lemma_prefix_trans(st.docs, st1.docs, r.docs);
        lemma_prefix_trans(st.warnings, st1.warnings, r.warnings);
    }
}

/// One walk step only appends to the rules, the documents and the warnings.
pub proof fn lemma_walk_entry_monotone(cfg: SpecConfig, st: SpecState, entry: FsEntry, dir_path: Seq<char>)
    ensures
        st.rules.is_prefix_of(spec_walk_entry(cfg, st, entry, dir_path).rules),
        st.docs.is_prefix_of(spec_walk_entry(cfg, st, entry, dir_path).docs),
        st.warnings.is_prefix_of(spec_walk_entry(cfg, st, entry, dir_path).warnings),
    decreases entry, 0int,
{
    lemma_prefix_refl(st.rules);
    lemma_prefix_refl(st.docs);
    lemma_prefix_refl(st.warnings);
    match entry.node {
        FsNode::File { content } => {
            assert(st.docs.is_prefix_of(st.docs.push(
                SpecDoc { path: spec_child_path(dir_path, entry.name@), content: content->0@ },
            )));
            assert(st.warnings.is_prefix_of(st.warnings.push(
                spec_skip_warning(
                    spec_child_path(dir_path, entry.name@),
                    spec_invalid_reason(),
                ),
            )));
        },
        FsNode::Dir { entries } => {
            if !cfg.include_hidden && spec_is_hidden(entry.name@) {
            } else {
                let st1 = spec_load_dir_rules(cfg, st, entries@);
                assert(st.rules.is_prefix_of(st1.rules));
                if !cfg.ignore_gitignore && spec_ignored(st1.rules, entry.name@) {
                } else {
                    lemma_walk_from_monotone(cfg, st1, entries@, 0, spec_child_path(dir_path, entry.name@));
                    let r = spec_walk_from(cfg, st1, entries@, 0, spec_child_path(dir_path, entry.name@));
                    lemma_prefix_trans(st.rules, st1.rules, r.rules);
                    lemma_prefix_trans(st.docs, st1.docs, r.docs);
                    lemma_prefix_trans(st.warnings, st1.warnings, r.warnings);
                }
            }
        },
    }
}

/// A document that directory recursion is allowed to emit: its path joins
/// some directory path with a base name that passes the hidden-name filter,
/// the user ignore globs, and the extension allow-list. (Which `.gitignore`
/// rules were active when it was reached depends on the walk's history; the
/// step lemmas above pin that part.)
pub open spec fn spec_doc_admissible(cfg: SpecConfig, doc: SpecDoc) -> bool {
    exists|dp: Seq<char>, name: Seq<char>|
        {
            &&& doc.path == #[trigger] spec_child_path(dp, name)
            &&& (cfg.include_hidden || !spec_is_hidden(name))
            &&& !spec_pattern_ignored(cfg.ignore_patterns, name)
            &&& (cfg.extensions.len() == 0 || spec_has_extension(name, cfg.extensions))
        }
}

/// Every document in `post` beyond the ones already in `pre` passed the
/// filters.
pub open spec fn spec_added_docs_admissible(cfg: SpecConfig, pre: Seq<SpecDoc>, post: Seq<SpecDoc>) -> bool {
    forall|j: int| pre.len() <= j < post.len() ==> spec_doc_admissible(cfg, #[trigger] post[j])
}

/// Admissibility of additions composes across two extensions of the
/// document sequence.
proof fn lemma_added_docs_trans(cfg: SpecConfig, a: Seq<SpecDoc>, b: Seq<SpecDoc>, c: Seq<SpecDoc>)
    requires
        b.is_prefix_of(c),
        spec_added_docs_admissible(cfg, a, b),
        spec_added_docs_admissible(cfg, b, c),
    ensures
        spec_added_docs_admissible(cfg, a, c),
{
    assert forall|j: int| a.len() <= j < c.len() implies spec_doc_admissible(
        cfg,
        #[trigger] c[j],
    ) by {
        if j < b.len() {
            assert(c[j] == b.subrange(0, b.len() as int)[j]);
            assert(c[j] == b[j]);
        }
    }
}

/// Every document a directory walk adds passed the filters: files under
/// hidden names (when hidden entries are excluded), files matching a user
/// ignore glob, and files outside a configured extension allow-list never
/// reach the output through recursion.
pub proof fn lemma_walk_from_docs_admissible(cfg: SpecConfig, st: SpecState, entries: Seq<FsEntry>, i: int, dir_path: Seq<char>)
    ensures
        spec_added_docs_admissible(cfg, st.docs, spec_walk_from(cfg, st, entries, i, dir_path).docs),
    decreases entries, entries.len() - i,
{
    if i < 0 || i >= entries.len() {
        assert(spec_added_docs_admissible(cfg, st.docs, st.docs));
    } else {
        let st1 = spec_walk_entry(cfg, st, entries[i], dir_path);
        let r = spec_walk_from(cfg, st1, entries, i + 1, dir_path);
        lemma_walk_entry_docs_admissible(cfg, st, entries[i], dir_path);
        lemma_walk_from_docs_admissible(cfg, st1, entries, i + 1, dir_path);
        lemma_walk_from_monotone(cfg, st1, entries, i + 1, dir_path);
        lemma_added_docs_trans(cfg, st.docs, st1.docs, r.docs);
    }
}

/// Every document one walk step adds passed the filters.
pub proof fn lemma_walk_entry_docs_admissible(cfg: SpecConfig, st: SpecState, entry: FsEntry, dir_path: Seq<char>)
    ensures
        spec_added_docs_admissible(cfg, st.docs, spec_walk_entry(cfg, st, entry, dir_path).docs),
    decreases entry, 0int,
{
    let r = spec_walk_entry(cfg, st, entry, dir_path);
    match entry.node {
        FsNode::File { content } => {
            if spec_emits(cfg, st.rules, entry.name@) && content is Some {
                let doc = SpecDoc {
                    path: spec_child_path(dir_path, entry.name@),
                    content: content->0@,
                };
                assert(r.docs == st.docs.push(doc));
                assert(doc.path == spec_child_path(dir_path, entry.name@));
                assert(spec_doc_admissible(cfg, doc));
                assert forall|j: int| st.docs.len() <= j < r.docs.len() implies spec_doc_admissible(
                    cfg,
                    #[trigger] r.docs[j],
                ) by {
                    assert(j == st.docs.len());
                    assert(r.docs[j] == doc);
                }
                assert(spec_added_docs_admissible(cfg, st.docs, r.docs));
            } else {
                assert(r.docs == st.docs);
                assert(spec_added_docs_admissible(cfg, st.docs, r.docs));
            }
        },
        FsNode::Dir { entries } => {
            if !cfg.include_hidden && spec_is_hidden(entry.name@) {
                assert(spec_added_docs_admissible(cfg, st.docs, r.docs));
            } else {
                let st1 = spec_load_dir_rules(cfg, st, entries@);
                assert(st1.docs == st.docs);
                if !cfg.ignore_gitignore && spec_ignored(st1.rules, entry.name@) {
                    assert(spec_added_docs_admissible(cfg, st.docs, r.docs));
                } else {
                    lemma_walk_from_docs_admissible(
                        cfg,
                        st1,
                        entries@,
                        0,
                        spec_child_path(dir_path, entry.name@),
                    );
                    assert(spec_added_docs_admissible(cfg, st.docs, r.docs));
                }
            }
        },
    }
}

/// Every sequence is a prefix of itself.
proof fn lemma_prefix_refl<A>(s: Seq<A>)
    ensures
        s.is_prefix_of(s),
{
    assert(s =~= s.subrange(0, s.len() as int));
}

/// Being a prefix is transitive.
proof fn lemma_prefix_trans<A>(a: Seq<A>, b: Seq<A>, c: Seq<A>)
    requires
        a.is_prefix_of(b),
        b.is_prefix_of(c),
    ensures
        a.is_prefix_of(c),
{
    assert(a =~= c.subrange(0, a.len() as int));
}

/// In tagged mode the rendering numbers documents by their emission order:
/// the document at position `k` (counting from zero) is rendered as a block
/// carrying document index `k + 1`, so numbering starts at 1 and rises by
/// exactly 1 per emitted file.
pub proof fn lemma_tagged_numbering(docs: Seq<SpecDoc>, k: int)
    requires
        0 <= k < docs.len(),
    ensures
        spec_render_from(docs, k, true) == spec_xml_block(
            (k + 1) as nat,
            docs[k].path,
            docs[k].content,
        ) + spec_render_from(docs, k + 1, true),
{
}

/// In tagged mode the root open/close wrapper encloses the rendered
/// documents exactly when at least one input path was supplied; a run over
/// no inputs produces no output at all.
pub proof fn lemma_root_wrapper(cfg: SpecConfig, inputs: Seq<InputPath>)
    requires
        cfg.claude_xml,
    ensures
        inputs.len() > 0 ==> spec_output(cfg, inputs) == "<documents>\n"@ + spec_render_from(
            spec_run(cfg, inputs).docs,
            0,
            true,
        ) + "</documents>\n"@,
        inputs.len() == 0 ==> spec_output(cfg, inputs) == Seq::<char>::empty(),
{
}

} // verus!
