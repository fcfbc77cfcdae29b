//! Concatenates the contents of a set of files into one text stream, either
//! as plain delimited blocks or as an XML-like tagged document list, after
//! filtering by hidden-name rules, simplified `.gitignore` rules, user glob
//! patterns and extension allow-lists.

use vstd::prelude::*;

pub mod filters;
pub mod format;
pub mod laws;
pub mod pattern;
pub mod rules;
pub mod walk;

verus! {

/// Resolved per-run configuration: which files the traversal keeps and how
/// the output is rendered.
pub struct Config {
    /// Allow-list of extensions (without leading dot); empty means no
    /// extension filtering.
    pub extensions: Vec<String>,
    /// When false, files and directories whose base name starts with `.` are
    /// excluded from directory recursion.
    pub include_hidden: bool,
    /// When true, `.gitignore`-derived filtering is disabled entirely.
    pub ignore_gitignore: bool,
    /// Glob patterns matched against base names; any match excludes a file.
    pub ignore_patterns: Vec<String>,
    /// When true, render the tagged (XML-like) format instead of plain blocks.
    pub claude_xml: bool,
}

impl Config {
    /// The configuration as its mathematical model.
    pub open spec fn view(&self) -> SpecConfig {
        SpecConfig {
            extensions: self.extensions.deep_view(),
            include_hidden: self.include_hidden,
            ignore_gitignore: self.ignore_gitignore,
            ignore_patterns: self.ignore_patterns.deep_view(),
            claude_xml: self.claude_xml,
        }
    }
}

/// Mathematical model of a [`Config`].
pub ghost struct SpecConfig {
    pub extensions: Seq<Seq<char>>,
    pub include_hidden: bool,
    pub ignore_gitignore: bool,
    pub ignore_patterns: Seq<Seq<char>>,
    pub claude_xml: bool,
}

} // verus!
