//! The traversal engine: walks each input path (a file or a directory tree),
//! threading the accumulated ignore-rule store and collecting emitted
//! documents and diagnostic warnings, then renders the whole run.
//!
//! The filesystem is modelled as a tree of named entries whose file contents
//! are either valid text or not; the caller resolves real paths into this
//! model and writes the rendered output and warnings back out. Rules read
//! from a `.gitignore` are never pruned when traversal leaves a directory:
//! rules inherited from a shallower directory stay active for everything
//! visited later in the run.

use vstd::prelude::*;

use crate::Config;
use crate::SpecConfig;
use crate::filters::{emits_file, is_hidden_dir, spec_emits, spec_is_hidden};
use crate::format::{
    missing_path_message, print_as_xml, print_default, skip_warning, spec_missing_path_message,
    spec_plain_block, spec_skip_warning, spec_xml_block,
};
use crate::rules::{add_gitignore_text, should_ignore, spec_ignored, spec_parse_rules, str_eq};

verus! {

/// One entry of a modelled directory: a base name and what it holds.
pub struct FsEntry {
    /// The base name (final path component) of the entry.
    pub name: String,
    /// What stands under that name.
    pub node: FsNode,
}

/// A modelled filesystem node.
pub enum FsNode {
    /// A regular file; `None` stands for content that is not valid text.
    File { content: Option<String> },
    /// A directory with its entries in enumeration order.
    Dir { entries: Vec<FsEntry> },
}

/// One user-supplied input path, resolved against the filesystem.
pub struct InputPath {
    /// The path as the user gave it.
    pub path: String,
    /// The text of a `.gitignore` found in the path's parent directory, when
    /// one could be read.
    pub parent_gitignore: Option<String>,
    /// What the path names, or `None` when it does not exist.
    pub node: Option<FsNode>,
}

/// An emitted file: its path and its text content.
pub struct Document {
    pub path: String,
    pub content: String,
}

/// Mathematical model of a [`Document`].
#[verifier::ext_equal]
pub ghost struct SpecDoc {
    pub path: Seq<char>,
    pub content: Seq<char>,
}

impl View for Document {
    type V = SpecDoc;

    open spec fn view(&self) -> SpecDoc {
        SpecDoc { path: self.path@, content: self.content@ }
    }
}

impl DeepView for Document {
    type V = SpecDoc;

    open spec fn deep_view(&self) -> SpecDoc {
        self.view()
    }
}

/// The state threaded through one run: the accumulated ignore rules, the
/// documents emitted so far in emission order, and the diagnostic warnings.
pub struct RunState {
    pub rules: Vec<String>,
    pub docs: Vec<Document>,
    pub warnings: Vec<String>,
}

/// Mathematical model of a [`RunState`].
#[verifier::ext_equal]
pub ghost struct SpecState {
    pub rules: Seq<Seq<char>>,
    pub docs: Seq<SpecDoc>,
    pub warnings: Seq<Seq<char>>,
}

impl View for RunState {
    type V = SpecState;

    open spec fn view(&self) -> SpecState {
        SpecState {
            rules: self.rules.deep_view(),
            docs: self.docs.deep_view(),
            warnings: self.warnings.deep_view(),
        }
    }
}

/// The state a run starts from: no rules, no documents, no warnings.
pub open spec fn spec_empty_state() -> SpecState {
    SpecState { rules: seq![], docs: seq![], warnings: seq![] }
}

/// The reason recorded when a file's content is not valid text.
pub open spec fn spec_invalid_reason() -> Seq<char> {
    "invalid UTF-8"@
}

/// The text of the first readable `.gitignore` file among `entries` at or
/// after index `i`: the first entry with that name decides, and yields
/// nothing when it is a directory or unreadable.
pub open spec fn spec_find_gitignore(entries: Seq<FsEntry>, i: int) -> Option<Seq<char>>
    decreases entries.len() - i,
{
    if i < 0 || i >= entries.len() {
        Option::None
    } else if entries[i].name@ == ".gitignore"@ {
        match entries[i].node {
            FsNode::File { content } => match content {
                Option::Some(c) => Option::Some(c@),
                Option::None => Option::None,
            },
            FsNode::Dir { .. } => Option::None,
        }
    } else {
        spec_find_gitignore(entries, i + 1)
    }
}

/// Loading a directory's own `.gitignore` into the rule store: a no-op when
/// `.gitignore` filtering is disabled or no readable `.gitignore` is there.
pub open spec fn spec_load_dir_rules(cfg: SpecConfig, st: SpecState, entries: Seq<FsEntry>) -> SpecState {
    if cfg.ignore_gitignore {
        st
    } else {
        match spec_find_gitignore(entries, 0) {
            Option::Some(text) => SpecState { rules: st.rules + spec_parse_rules(text), ..st },
            Option::None => st,
        }
    }
}

/// The path of a child entry: the directory's path, a separator, the base
/// name.
pub open spec fn spec_child_path(dir_path: Seq<char>, name: Seq<char>) -> Seq<char> {
    dir_path + "/"@ + name
}

/// One step of the pre-order walk, on the entry `entry` inside the directory
/// at `dir_path`.
///
/// A file is emitted when it passes every filter against the rules
/// accumulated so far; a passing file without valid text yields a warning
/// instead. A hidden directory is pruned outright (when hidden entries are
/// excluded); otherwise the directory's own `.gitignore` joins the rule
/// store first, and the directory is pruned — keeping those rules — when
/// the accumulated rules ignore its name.
pub open spec fn spec_walk_entry(cfg: SpecConfig, st: SpecState, entry: FsEntry, dir_path: Seq<char>) -> SpecState
    decreases entry, 0int,
{
    let child_path = spec_child_path(dir_path, entry.name@);
    match entry.node {
        FsNode::File { content } => {
            if spec_emits(cfg, st.rules, entry.name@) {
                match content {
                    Option::Some(c) => SpecState {
                        docs: st.docs.push(SpecDoc { path: child_path, content: c@ }),
                        ..st
                    },
                    Option::None => SpecState {
                        warnings: st.warnings.push(spec_skip_warning(child_path, spec_invalid_reason())),
                        ..st
                    },
                }
            } else {
                st
            }
        },
        FsNode::Dir { entries } => {
            if !cfg.include_hidden && spec_is_hidden(entry.name@) {
                st
            } else {
                let st1 = spec_load_dir_rules(cfg, st, entries@);
                if !cfg.ignore_gitignore && spec_ignored(st1.rules, entry.name@) {
                    st1
                } else {
                    spec_walk_from(cfg, st1, entries@, 0, child_path)
                }
            }
        },
    }
}

/// The walk over the entries of one directory from index `i` on, threading
/// the state left to right.
pub open spec fn spec_walk_from(cfg: SpecConfig, st: SpecState, entries: Seq<FsEntry>, i: int, dir_path: Seq<char>) -> SpecState
    decreases entries, entries.len() - i,
{
    if i < 0 || i >= entries.len() {
        st
    } else {
        spec_walk_from(cfg, spec_walk_entry(cfg, st, entries[i], dir_path), entries, i + 1, dir_path)
    }
}

/// Loading the `.gitignore` of an input path's parent directory, when
/// `.gitignore` filtering is enabled and one was readable.
pub open spec fn spec_load_parent_rules(cfg: SpecConfig, st: SpecState, gi: Option<String>) -> SpecState {
    if cfg.ignore_gitignore {
        st
    } else {
        match gi {
            Option::Some(t) => SpecState { rules: st.rules + spec_parse_rules(t@), ..st },
            Option::None => st,
        }
    }
}

/// Processing one existing input path: its parent's `.gitignore` is loaded
/// first. An input that is a file is emitted directly, subject only to its
/// content being valid text — never to the filters. An input that is a
/// directory has its own `.gitignore` loaded and its entries walked.
pub open spec fn spec_process_input(cfg: SpecConfig, st: SpecState, input: InputPath) -> SpecState
    decreases input,
{
    let st1 = spec_load_parent_rules(cfg, st, input.parent_gitignore);
    match input.node {
        Option::None => st1,
        Option::Some(node) => match node {
            FsNode::File { content } => match content {
                Option::Some(c) => SpecState {
                    docs: st1.docs.push(SpecDoc { path: input.path@, content: c@ }),
                    ..st1
                },
                Option::None => SpecState {
                    warnings: st1.warnings.push(
                        spec_skip_warning(input.path@, spec_invalid_reason()),
                    ),
                    ..st1
                },
            },
            FsNode::Dir { entries } => {
                let st2 = spec_load_dir_rules(cfg, st1, entries@);
                spec_walk_from(cfg, st2, entries@, 0, input.path@)
            },
        },
    }
}

/// Processing the input paths from index `i` on, in the order given.
pub open spec fn spec_process_from(cfg: SpecConfig, st: SpecState, inputs: Seq<InputPath>, i: int) -> SpecState
    decreases inputs.len() - i,
{
    if i < 0 || i >= inputs.len() {
        st
    } else {
        spec_process_from(cfg, spec_process_input(cfg, st, inputs[i]), inputs, i + 1)
    }
}

/// The final state of a whole run over `inputs`.
pub open spec fn spec_run(cfg: SpecConfig, inputs: Seq<InputPath>) -> SpecState {
    spec_process_from(cfg, spec_empty_state(), inputs, 0)
}

/// The path of the first input that does not exist, if any: that input makes
/// the whole run fail.
pub open spec fn spec_first_missing_from(inputs: Seq<InputPath>, i: int) -> Option<Seq<char>>
    decreases inputs.len() - i,
{
    if i < 0 || i >= inputs.len() {
        Option::None
    } else if inputs[i].node is None {
        Option::Some(inputs[i].path@)
    } else {
        spec_first_missing_from(inputs, i + 1)
    }
}

/// The rendering of the emitted documents from index `i` on. In tagged mode
/// the document at index `i` carries document index `i + 1`: numbering
/// starts at 1 and rises by 1 per emitted file, in emission order.
pub open spec fn spec_render_from(docs: Seq<SpecDoc>, i: int, cxml: bool) -> Seq<char>
    decreases docs.len() - i,
{
    if i < 0 || i >= docs.len() {
        Seq::empty()
    } else {
        (if cxml {
            spec_xml_block((i + 1) as nat, docs[i].path, docs[i].content)
        } else {
            spec_plain_block(docs[i].path, docs[i].content)
        }) + spec_render_from(docs, i + 1, cxml)
    }
}

/// The whole run's primary output: the rendered documents, wrapped in the
/// root open/close pair exactly when tagged output was chosen and at least
/// one input path was supplied.
pub open spec fn spec_output(cfg: SpecConfig, inputs: Seq<InputPath>) -> Seq<char> {
    let body = spec_render_from(spec_run(cfg, inputs).docs, 0, cfg.claude_xml);
    if cfg.claude_xml && inputs.len() > 0 {
        "<documents>\n"@ + body + "</documents>\n"@
    } else {
        body
    }
}

/// The output and diagnostics of a successful run.
#[derive(Debug)]
pub struct RunOutput {
    /// The primary output stream's full text.
    pub output: String,
    /// The diagnostic warnings, in the order they arose.
    pub warnings: Vec<String>,
}

/// Joins a directory path and a base name with a separator.
fn join_path(dir: &str, name: &str) -> (r: String)
    ensures
        r@ == spec_child_path(dir@, name@),
{
    let mut s = String::from_str(dir);
    s.append("/");
    s.append(name);
    proof {
        assert(s@ =~= spec_child_path(dir@, name@));
    }
    s
}

/// Chains the one-step skips of `spec_find_gitignore` from `a` up to `b`.
proof fn lemma_find_gitignore_chain(entries: Seq<FsEntry>, a: int, b: int)
    requires
        0 <= a <= b <= entries.len(),
        forall|j: int| a <= j < b ==> #[trigger] entries[j].name@ != ".gitignore"@,
    ensures
        spec_find_gitignore(entries, a) == spec_find_gitignore(entries, b),
    decreases b - a,
{
    if a < b {
        assert(entries[a].name@ != ".gitignore"@);
        lemma_find_gitignore_chain(entries, a + 1, b);
    }
}

/// Loads the first readable `.gitignore` directly inside a directory into
/// the rule store, unless `.gitignore` filtering is disabled. Absent or
/// unreadable files are silently skipped.
fn load_dir_rules(cfg: &Config, st: &mut RunState, entries: &Vec<FsEntry>)
    ensures
        final(st)@ == spec_load_dir_rules(cfg@, old(st)@, entries@),
{
    if cfg.ignore_gitignore {
        return;
    }
    let n = entries.len();
    let mut i: usize = 0;
    while i < n
        invariant
            n == entries@.len(),
            0 <= i <= n,
            !cfg.ignore_gitignore,
            *st == *old(st),
            forall|j: int| 0 <= j < i ==> #[trigger] entries@[j].name@ != ".gitignore"@,
        decreases n - i,
    {
        if str_eq(entries[i].name.as_str(), ".gitignore") {
            proof {
                lemma_find_gitignore_chain(entries@, 0, i as int);
            }
            match &entries[i].node {
                FsNode::File { content: Option::Some(text) } => {
                    add_gitignore_text(text.as_str(), &mut st.rules);
                    proof {
                        assert(st@ =~= spec_load_dir_rules(cfg@, old(st)@, entries@));
                    }
                },
                _ => {
                    proof {
                        assert(st@ =~= spec_load_dir_rules(cfg@, old(st)@, entries@));
                    }
                },
            }
            return;
        }
        i += 1;
    }
    proof {
        lemma_find_gitignore_chain(entries@, 0, n as int);
    }
}

/// One step of the pre-order walk; see [`spec_walk_entry`].
fn walk_entry(cfg: &Config, st: RunState, entry: &FsEntry, dir_path: &str) -> (r: RunState)
    ensures
        r@ == spec_walk_entry(cfg@, st@, *entry, dir_path@),
    decreases *entry, 0int,
{
    let ghost st0 = st@;
    let child_path = join_path(dir_path, entry.name.as_str());
    match &entry.node {
        FsNode::File { content } => {
            if emits_file(cfg, &st.rules, entry.name.as_str()) {
                let mut st = st;
                match content {
                    Option::Some(c) => {
                        st.docs.push(Document { path: child_path, content: c.clone() });
                        proof {
                            assert(st@ =~= spec_walk_entry(cfg@, st0, *entry, dir_path@));
                        }
                    },
                    Option::None => {
                        st.warnings.push(skip_warning(child_path.as_str(), "invalid UTF-8"));
                        proof {
                            reveal_strlit("invalid UTF-8");
                            assert(st@ =~= spec_walk_entry(cfg@, st0, *entry, dir_path@));
                        }
                    },
                }
                st
            } else {
                st
            }
        },
        FsNode::Dir { entries } => {
            if !cfg.include_hidden && is_hidden_dir(entry.name.as_str()) {
                st
            } else {
                let mut st = st;
                load_dir_rules(cfg, &mut st, entries);
                if !cfg.ignore_gitignore && should_ignore(entry.name.as_str(), &st.rules) {
                    st
                } else {
                    walk_from(cfg, st, entries, 0, child_path.as_str())
                }
            }
        },
    }
}

/// Walks the entries of one directory from index `i` on; see
/// [`spec_walk_from`].
fn walk_from(cfg: &Config, st: RunState, entries: &Vec<FsEntry>, i: usize, dir_path: &str) -> (r: RunState)
    ensures
        r@ == spec_walk_from(cfg@, st@, entries@, i as int, dir_path@),
    decreases entries@, entries@.len() - i,
{
    if i >= entries.len() {
        st
    } else {
        let st1 = walk_entry(cfg, st, &entries[i], dir_path);
        walk_from(cfg, st1, entries, i + 1, dir_path)
    }
}

/// Processes one existing input path; see [`spec_process_input`].
fn process_input(cfg: &Config, st: RunState, input: &InputPath) -> (r: RunState)
    ensures
        r@ == spec_process_input(cfg@, st@, *input),
{
    let ghost st0 = st@;
    let mut st = st;
    if !cfg.ignore_gitignore {
        match &input.parent_gitignore {
            Option::Some(t) => {
                add_gitignore_text(t.as_str(), &mut st.rules);
            },
            Option::None => {},
        }
    }
    proof {
        assert(st@ =~= spec_load_parent_rules(cfg@, st0, input.parent_gitignore));
    }
    match &input.node {
        Option::None => st,
        Option::Some(node) => match node {
            FsNode::File { content } => {
                match content {
                    Option::Some(c) => {
                        st.docs.push(Document { path: input.path.clone(), content: c.clone() });
                        proof {
                            assert(st@ =~= spec_process_input(cfg@, st0, *input));
                        }
                    },
                    Option::None => {
                        st.warnings.push(skip_warning(input.path.as_str(), "invalid UTF-8"));
                        proof {
                            reveal_strlit("invalid UTF-8");
                            assert(st@ =~= spec_process_input(cfg@, st0, *input));
                        }
                    },
                }
                st
            },
            FsNode::Dir { entries } => {
                load_dir_rules(cfg, &mut st, entries);
                walk_from(cfg, st, entries, 0, input.path.as_str())
            },
        },
    }
}

/// Runs the whole pipeline over the resolved input paths.
///
/// Fails with the "path does not exist" message of the first missing input,
/// producing no output at all; otherwise returns the full primary output
/// (both formats rendered exactly, the root wrapper present exactly when
/// tagged output was chosen and an input was supplied) and the diagnostic
/// warnings in the order they arose.
pub fn process_files(inputs: &Vec<InputPath>, cfg: &Config) -> (r: Result<RunOutput, String>)
    ensures
        match spec_first_missing_from(inputs@, 0) {
            Option::Some(p) => r is Err && r->Err_0@ == spec_missing_path_message(p),
            Option::None => {
                &&& r is Ok
                &&& r->Ok_0.output@ == spec_output(cfg@, inputs@)
                &&& r->Ok_0.warnings.deep_view() == spec_run(cfg@, inputs@).warnings
            },
        },
{
    let n = inputs.len();
    let mut i: usize = 0;
    while i < n
        invariant
            n == inputs@.len(),
            0 <= i <= n,
            forall|j: int| 0 <= j < i ==> (#[trigger] inputs@[j]).node is Some,
        decreases n - i,
    {
        if inputs[i].node.is_none() {
            proof {
                lemma_first_missing_chain(inputs@, 0, i as int);
            }
            return Result::Err(missing_path_message(inputs[i].path.as_str()));
        }
        i += 1;
    }
    proof {
        lemma_first_missing_chain(inputs@, 0, n as int);
    }
    let mut st = RunState { rules: Vec::new(), docs: Vec::new(), warnings: Vec::new() };
    proof {
        assert(st@ =~= spec_empty_state());
    }
    let mut i: usize = 0;
    while i < n
        invariant
            n == inputs@.len(),
            0 <= i <= n,
            spec_process_from(cfg@, spec_empty_state(), inputs@, 0) == spec_process_from(
                cfg@,
                st@,
                inputs@,
                i as int,
            ),
        decreases n - i,
    {
        st = process_input(cfg, st, &inputs[i]);
        i += 1;
    }
    let ghost grun = spec_run(cfg@, inputs@);
    proof {
        assert(grun == st@);
    }
    // Render the emitted documents in order.
    let mut body = String::new();
    let m = st.docs.len();
    let mut k: usize = 0;
    while k < m
        invariant
            m == st.docs@.len(),
            0 <= k <= m,
            grun == st@,
            spec_render_from(st@.docs, 0, cfg@.claude_xml) == body@ + spec_render_from(
                st@.docs,
                k as int,
                cfg@.claude_xml,
            ),
        decreases m - k,
    {
        let block = if cfg.claude_xml {
            print_as_xml(k + 1, st.docs[k].path.as_str(), st.docs[k].content.as_str())
        } else {
            print_default(st.docs[k].path.as_str(), st.docs[k].content.as_str())
        };
        body.append(block.as_str());
        proof {
            assert(spec_render_from(st@.docs, 0, cfg@.claude_xml) =~= body@ + spec_render_from(
                st@.docs,
                k + 1,
                cfg@.claude_xml,
            ));
        }
        k += 1;
    }
    let output = if cfg.claude_xml && inputs.len() > 0 {
        let mut out = String::from_str("<documents>\n");
        out.append(body.as_str());
        out.append("</documents>\n");
        proof {
            assert(out@ =~= spec_output(cfg@, inputs@));
        }
        out
    } else {
        proof {
            assert(body@ =~= spec_output(cfg@, inputs@));
        }
        body
    };
    Result::Ok(RunOutput { output, warnings: st.warnings })
}

/// Chains the one-step skips of `spec_first_missing_from` from `a` to `b`.
proof fn lemma_first_missing_chain(inputs: Seq<InputPath>, a: int, b: int)
    requires
        0 <= a <= b <= inputs.len(),
        forall|j: int| a <= j < b ==> (#[trigger] inputs[j]).node is Some,
    ensures
        spec_first_missing_from(inputs, a) == spec_first_missing_from(inputs, b),
    decreases b - a,
{
    if a < b {
        lemma_first_missing_chain(inputs, a + 1, b);
    }
}

} // verus!
