use files_to_prompt::walk::{process_files, FsEntry, FsNode, InputPath, RunOutput};
use files_to_prompt::Config;

fn file(name: &str, content: &str) -> FsEntry {
    FsEntry {
        name: name.to_string(),
        node: FsNode::File { content: Some(content.to_string()) },
    }
}

fn unreadable(name: &str) -> FsEntry {
    FsEntry { name: name.to_string(), node: FsNode::File { content: None } }
}

fn dir(name: &str, entries: Vec<FsEntry>) -> FsEntry {
    FsEntry { name: name.to_string(), node: FsNode::Dir { entries } }
}

fn input_dir(path: &str, entries: Vec<FsEntry>) -> InputPath {
    InputPath {
        path: path.to_string(),
        parent_gitignore: None,
        node: Some(FsNode::Dir { entries }),
    }
}

fn input_file(path: &str, content: &str) -> InputPath {
    InputPath {
        path: path.to_string(),
        parent_gitignore: None,
        node: Some(FsNode::File { content: Some(content.to_string()) }),
    }
}

fn default_config() -> Config {
    Config {
        extensions: vec![],
        include_hidden: false,
        ignore_gitignore: false,
        ignore_patterns: vec![],
        claude_xml: false,
    }
}

fn run(inputs: Vec<InputPath>, cfg: Config) -> RunOutput {
    process_files(&inputs, &cfg).expect("run should succeed")
}

#[test]
fn test_basic_functionality() {
    let inputs = vec![input_dir(
        "test_dir",
        vec![file("file1.txt", "Contents of file1"), file("file2.txt", "Contents of file2")],
    )];
    let out = run(inputs, default_config());
    assert!(out.output.contains("test_dir/file1.txt"));
    assert!(out.output.contains("Contents of file1"));
    assert!(out.output.contains("test_dir/file2.txt"));
    assert!(out.output.contains("Contents of file2"));
}

#[test]
fn test_include_hidden() {
    let entries = vec![file(".hidden.txt", "Contents of hidden file")];
    let inputs = vec![input_dir("test_dir", entries)];
    let out = run(inputs, default_config());
    assert!(!out.output.contains(".hidden.txt"));
    assert!(!out.output.contains("Contents of hidden file"));

    let entries = vec![file(".hidden.txt", "Contents of hidden file")];
    let inputs = vec![input_dir("test_dir", entries)];
    let mut cfg = default_config();
    cfg.include_hidden = true;
    let out = run(inputs, cfg);
    assert!(out.output.contains("test_dir/.hidden.txt"));
    assert!(out.output.contains("Contents of hidden file"));
}

#[test]
fn test_ignore_gitignore() {
    let entries = vec![
        file(".gitignore", "ignored.txt"),
        file("ignored.txt", "This file should be ignored"),
        file("included.txt", "This file should be included"),
    ];
    let inputs = vec![input_dir("test_dir", entries)];
    let out = run(inputs, default_config());
    assert!(!out.output.contains("This file should be ignored"));
    assert!(out.output.contains("This file should be included"));

    let entries = vec![
        file(".gitignore", "ignored.txt"),
        file("ignored.txt", "This file should be ignored"),
        file("included.txt", "This file should be included"),
    ];
    let inputs = vec![input_dir("test_dir", entries)];
    let mut cfg = default_config();
    cfg.ignore_gitignore = true;
    let out = run(inputs, cfg);
    assert!(out.output.contains("This file should be ignored"));
    assert!(out.output.contains("This file should be included"));
}

#[test]
fn test_multiple_paths() {
    let inputs = vec![
        input_dir("test_dir1", vec![file("file1.txt", "Contents of file1")]),
        input_dir("test_dir2", vec![file("file2.txt", "Contents of file2")]),
        input_file("single_file.txt", "Contents of single file"),
    ];
    let out = run(inputs, default_config());
    assert!(out.output.contains("test_dir1/file1.txt"));
    assert!(out.output.contains("Contents of file1"));
    assert!(out.output.contains("test_dir2/file2.txt"));
    assert!(out.output.contains("Contents of file2"));
    assert!(out.output.contains("single_file.txt"));
    assert!(out.output.contains("Contents of single file"));
}

#[test]
fn test_ignore_patterns() {
    let entries = vec![
        file("file_to_ignore.txt", "This file should be ignored due to ignore patterns"),
        file("file_to_include.txt", "This file should be included"),
    ];
    let inputs = vec![input_dir("test_dir", entries)];
    let mut cfg = default_config();
    cfg.ignore_patterns = vec!["*.txt".to_string()];
    let out = run(inputs, cfg);
    assert!(!out.output.contains("This file should be ignored due to ignore patterns"));
    assert!(!out.output.contains("This file should be included"));

    let entries = vec![
        file("file_to_ignore.txt", "This file should be ignored due to ignore patterns"),
        file("file_to_include.txt", "This file should be included"),
    ];
    let inputs = vec![input_dir("test_dir", entries)];
    let mut cfg = default_config();
    cfg.ignore_patterns = vec!["file_to_ignore.*".to_string()];
    let out = run(inputs, cfg);
    assert!(!out.output.contains("This file should be ignored due to ignore patterns"));
    assert!(out.output.contains("This file should be included"));
}

#[test]
fn test_specific_extensions() {
    let entries = vec![
        file("one.txt", "This is one.txt"),
        file("one.py", "This is one.py"),
        dir(
            "two",
            vec![file("two.txt", "This is two/two.txt"), file("two.py", "This is two/two.py")],
        ),
        file("three.md", "This is three.md"),
    ];
    let inputs = vec![input_dir("test_dir", entries)];
    let mut cfg = default_config();
    cfg.extensions = vec!["txt".to_string(), "md".to_string()];
    let out = run(inputs, cfg);
    assert!(out.output.contains("This is one.txt"));
    assert!(out.output.contains("This is two/two.txt"));
    assert!(out.output.contains("This is three.md"));
    assert!(!out.output.contains("This is one.py"));
    assert!(!out.output.contains("This is two/two.py"));
}

#[test]
fn test_binary_file_warning() {
    let entries = vec![
        unreadable("binary_file.bin"),
        file("text_file.txt", "This is a text file"),
    ];
    let inputs = vec![input_dir("test_dir", entries)];
    let out = run(inputs, default_config());
    assert!(out.output.contains("test_dir/text_file.txt"));
    assert!(out.output.contains("This is a text file"));
    assert!(!out.output.contains("binary_file.bin"));
    assert_eq!(out.warnings.len(), 1);
    assert!(out.warnings[0].contains("Warning: Skipping file"));
    assert!(out.warnings[0].contains("test_dir/binary_file.bin"));
    assert!(out.warnings[0].contains("due to"));
    assert!(out.warnings[0].contains("invalid UTF-8"));
}

#[test]
fn test_xml_format_dir() {
    let entries = vec![
        file("file1.txt", "Contents of file1.txt"),
        file("file2.txt", "Contents of file2.txt"),
    ];
    let inputs = vec![input_dir("test_dir", entries)];
    let mut cfg = default_config();
    cfg.claude_xml = true;
    let out = run(inputs, cfg);
    assert!(out.output.starts_with("<documents>"));
    assert!(out.output.contains("<document index=\"1\">"));
    assert!(out.output.contains("<document index=\"2\">"));
    assert!(out.output.contains("<source>test_dir/file1.txt</source>"));
    assert!(out.output.contains("<document_content>"));
    assert!(out.output.contains("Contents of file1.txt"));
    assert!(out.output.contains("Contents of file2.txt"));
    assert!(out.output.ends_with("</documents>\n"));
    let first = out.output.find("<document index=\"1\">").unwrap();
    let second = out.output.find("<document index=\"2\">").unwrap();
    assert!(first < second);
}

#[test]
fn test_output_option() {
    let inputs = vec![input_dir(
        "test_dir",
        vec![
            file("file1.txt", "Contents of file1.txt"),
            file("file2.txt", "Contents of file2.txt"),
        ],
    )];
    let out = run(inputs, default_config());
    assert!(out.output.contains("test_dir/file1.txt"));
    assert!(out.output.contains("Contents of file1.txt"));
    assert!(out.output.contains("test_dir/file2.txt"));
    assert!(out.output.contains("Contents of file2.txt"));
}

#[test]
fn plain_format_is_exact() {
    let inputs = vec![input_file("notes.txt", "line one\nline two")];
    let out = run(inputs, default_config());
    assert_eq!(out.output, "notes.txt\n---\nline one\nline two\n---\n");
    assert!(out.warnings.is_empty());
}

#[test]
fn tagged_format_is_exact() {
    let inputs = vec![input_file("a.txt", "A")];
    let mut cfg = default_config();
    cfg.claude_xml = true;
    let out = run(inputs, cfg);
    assert_eq!(
        out.output,
        "<documents>\n<document index=\"1\">\n<source>a.txt</source>\n<document_content>\nA\n</document_content>\n</document>\n</documents>\n",
    );
}

#[test]
fn tagged_indices_reach_double_digits() {
    let mut entries = Vec::new();
    for i in 0..12 {
        entries.push(file(&format!("f{i}.txt"), "x"));
    }
    let inputs = vec![input_dir("d", entries)];
    let mut cfg = default_config();
    cfg.claude_xml = true;
    let out = run(inputs, cfg);
    assert!(out.output.contains("<document index=\"10\">"));
    assert!(out.output.contains("<document index=\"12\">"));
    assert!(!out.output.contains("<document index=\"13\">"));
}

#[test]
fn empty_inputs_produce_no_output() {
    let out = run(vec![], default_config());
    assert_eq!(out.output, "");
    let mut cfg = default_config();
    cfg.claude_xml = true;
    let out = run(vec![], cfg);
    assert_eq!(out.output, "");
}

#[test]
fn missing_path_is_fatal() {
    let inputs = vec![
        input_file("ok.txt", "fine"),
        InputPath { path: "nope.txt".to_string(), parent_gitignore: None, node: None },
    ];
    let cfg = default_config();
    let err = process_files(&inputs, &cfg).unwrap_err();
    assert_eq!(err, "Path does not exist: nope.txt");
}

#[test]
fn named_file_bypasses_filters() {
    // An explicitly named file is emitted even though every filter would
    // reject it inside a directory walk.
    let mut inputs = vec![input_file(".hidden.bin", "secret bytes")];
    inputs[0].parent_gitignore = Some(".hidden.bin".to_string());
    let mut cfg = default_config();
    cfg.extensions = vec!["txt".to_string()];
    cfg.ignore_patterns = vec!["*".to_string()];
    let out = run(inputs, cfg);
    assert_eq!(out.output, ".hidden.bin\n---\nsecret bytes\n---\n");
}

#[test]
fn hidden_directory_is_pruned() {
    let entries = vec![
        dir(".git", vec![file("config", "should never appear")]),
        file("visible.txt", "shown"),
    ];
    let inputs = vec![input_dir("repo", entries)];
    let out = run(inputs, default_config());
    assert!(!out.output.contains("should never appear"));
    assert!(out.output.contains("shown"));
}

#[test]
fn gitignore_applies_to_subdirectories() {
    // A rule loaded in an ancestor stays active for deeper levels.
    let entries = vec![
        file(".gitignore", "*.log"),
        dir("sub", vec![file("trace.log", "hidden trace"), file("keep.txt", "kept")]),
    ];
    let inputs = vec![input_dir("root", entries)];
    let out = run(inputs, default_config());
    assert!(!out.output.contains("hidden trace"));
    assert!(out.output.contains("kept"));
}

#[test]
fn gitignore_directory_rule_prunes_subtree() {
    let entries = vec![
        file(".gitignore", "build/"),
        dir("build", vec![file("artifact.txt", "generated stuff")]),
        file("src.txt", "source"),
    ];
    let inputs = vec![input_dir("root", entries)];
    let out = run(inputs, default_config());
    assert!(!out.output.contains("generated stuff"));
    assert!(out.output.contains("source"));
}

#[test]
fn gitignore_comments_and_blanks_are_skipped() {
    let entries = vec![
        file(".gitignore", "# comment\n\nsecret.txt\n"),
        file("secret.txt", "SECRET-REDACTED"),
        file("# comment", "odd name kept"),
    ];
    let inputs = vec![input_dir("root", entries)];
    let out = run(inputs, default_config());
    assert!(!out.output.contains("SECRET-REDACTED"));
    assert!(out.output.contains("odd name kept"));
}

#[test]
fn parent_gitignore_filters_directory_walk() {
    let mut input = input_dir("proj", vec![file("notes.txt", "note body"), file("keep.md", "kept")]);
    input.parent_gitignore = Some("*.txt".to_string());
    let out = run(vec![input], default_config());
    assert!(!out.output.contains("note body"));
    assert!(out.output.contains("kept"));
}

#[test]
fn rules_stay_active_across_inputs() {
    // Rules accumulated while walking one input keep filtering later inputs.
    let first = input_dir("a", vec![file(".gitignore", "*.tmp")]);
    let second = input_dir("b", vec![file("x.tmp", "temp data"), file("x.txt", "real data")]);
    let out = run(vec![first, second], default_config());
    assert!(!out.output.contains("temp data"));
    assert!(out.output.contains("real data"));
}

#[test]
fn extension_match_is_case_insensitive() {
    let entries = vec![file("README.TXT", "upper case name"), file("notes.txt", "lower case name")];
    let inputs = vec![input_dir("d", entries)];
    let mut cfg = default_config();
    cfg.extensions = vec!["Txt".to_string()];
    let out = run(inputs, cfg);
    assert!(out.output.contains("upper case name"));
    assert!(out.output.contains("lower case name"));
}

#[test]
fn file_without_extension_is_excluded_by_allow_list() {
    let entries = vec![file("Makefile", "no extension"), file("a.txt", "with extension")];
    let inputs = vec![input_dir("d", entries)];
    let mut cfg = default_config();
    cfg.extensions = vec!["txt".to_string()];
    let out = run(inputs, cfg);
    assert!(!out.output.contains("no extension"));
    assert!(out.output.contains("with extension"));
}

#[test]
fn malformed_ignore_pattern_matches_nothing() {
    let entries = vec![file("a.txt", "survives malformed pattern")];
    let inputs = vec![input_dir("d", entries)];
    let mut cfg = default_config();
    cfg.ignore_patterns = vec!["[".to_string()];
    let out = run(inputs, cfg);
    assert!(out.output.contains("survives malformed pattern"));
}

#[test]
fn glob_patterns_match_base_names_only() {
    // A pattern with a question mark and a class, against base names.
    let entries = vec![
        file("cat.rs", "feline"),
        file("cut.rs", "scissors"),
        file("cot.rs", "bed"),
    ];
    let inputs = vec![input_dir("d", entries)];
    let mut cfg = default_config();
    cfg.ignore_patterns = vec!["c[au]t.rs".to_string()];
    let out = run(inputs, cfg);
    assert!(!out.output.contains("feline"));
    assert!(!out.output.contains("scissors"));
    assert!(out.output.contains("bed"));
}

#[test]
fn unreadable_file_warns_and_siblings_survive() {
    let entries = vec![unreadable("junk.bin"), file("good.txt", "good content")];
    let inputs = vec![input_dir("d", entries)];
    let out = run(inputs, default_config());
    assert!(out.output.contains("good content"));
    assert_eq!(out.warnings.len(), 1);
    assert!(out.warnings[0].contains("d/junk.bin"));
}

#[test]
fn glob_rule_in_gitignore_prunes_matching_directory() {
    // A directory name is also checked against plain (non-slash) rules.
    let entries = vec![
        file(".gitignore", "sub"),
        dir("sub", vec![file("inner.txt", "inner content")]),
        file("outer.txt", "outer content"),
    ];
    let inputs = vec![input_dir("root", entries)];
    let out = run(inputs, default_config());
    assert!(!out.output.contains("inner content"));
    assert!(out.output.contains("outer content"));
}

#[test]
fn rules_from_one_subtree_reach_later_siblings() {
    // Accumulated rules are never pruned when traversal leaves a directory,
    // so a rule loaded in one subtree still filters a sibling visited later.
    let entries = vec![
        dir("a", vec![file(".gitignore", "*.x")]),
        dir("b", vec![file("f.x", "sibling leak"), file("f.y", "sibling kept")]),
    ];
    let inputs = vec![input_dir("root", entries)];
    let out = run(inputs, default_config());
    assert!(!out.output.contains("sibling leak"));
    assert!(out.output.contains("sibling kept"));
}

#[test]
fn pruned_hidden_directory_contributes_no_rules() {
    // A hidden directory is pruned before its .gitignore could be read.
    let entries = vec![
        dir(".hid", vec![file(".gitignore", "*.txt")]),
        file("a.txt", "still here"),
    ];
    let inputs = vec![input_dir("root", entries)];
    let out = run(inputs, default_config());
    assert!(out.output.contains("still here"));
}
