//! Rendering of emitted files: the plain delimited block and the tagged
//! (XML-like) block with its running document index, plus the diagnostic
//! messages the pipeline produces. Both block shapes are a frozen wire
//! contract: delimiter lines, tag names and nesting are exact, and content
//! is written verbatim with no escaping.

use vstd::prelude::*;

verus! {

/// The decimal digit character for `d` (meaningful for `d < 10`).
pub open spec fn spec_digit_char(d: nat) -> char
    recommends
        d < 10,
{
    ((48 + d) as u8) as char
}

/// The decimal rendering of `n`, most significant digit first, no sign and
/// no leading zeros (`0` renders as `"0"`).
pub open spec fn spec_dec(n: nat) -> Seq<char>
    decreases n,
{
    if n < 10 {
        seq![spec_digit_char(n)]
    } else {
        spec_dec(n / 10) + seq![spec_digit_char(n % 10)]
    }
}

/// Renders one decimal digit (`d < 10`) as a string.
fn digit_str(d: usize) -> (r: &'static str)
    requires
        d < 10,
    ensures
        r@ == seq![spec_digit_char(d as nat)],
{
    proof {
        reveal_strlit("0");
        reveal_strlit("1");
        reveal_strlit("2");
        reveal_strlit("3");
        reveal_strlit("4");
        reveal_strlit("5");
        reveal_strlit("6");
        reveal_strlit("7");
        reveal_strlit("8");
        reveal_strlit("9");
    }
    let r = match d {
        0 => "0",
        1 => "1",
        2 => "2",
        3 => "3",
        4 => "4",
        5 => "5",
        6 => "6",
        7 => "7",
        8 => "8",
        _ => "9",
    };
    proof {
        assert(r@ =~= seq![spec_digit_char(d as nat)]);
    }
    r
}

/// Renders `n` in decimal.
pub fn usize_to_string(n: usize) -> (r: String)
    ensures
        r@ == spec_dec(n as nat),
    decreases n,
{
    let d = digit_str(n % 10);
    if n < 10 {
        String::from_str(d)
    } else {
        let mut s = usize_to_string(n / 10);
        s.append(d);
        proof {
            assert(s@ =~= spec_dec(n as nat));
        }
        s
    }
}

/// The plain block for a file with path `p` and content `c`: the path line,
/// a `---` line, the content followed by a newline, and a closing `---` line.
pub open spec fn spec_plain_block(p: Seq<char>, c: Seq<char>) -> Seq<char> {
    p + "\n---\n"@ + c + "\n---\n"@
}

/// The tagged block for the file with path `p` and content `c` emitted with
/// document index `index`.
pub open spec fn spec_xml_block(index: nat, p: Seq<char>, c: Seq<char>) -> Seq<char> {
    "<document index=\""@ + spec_dec(index) + "\">\n<source>"@ + p + "</source>\n<document_content>\n"@
        + c + "\n</document_content>\n</document>\n"@
}

/// Renders a file as a plain delimited block.
pub fn print_default(path: &str, content: &str) -> (r: String)
    ensures
        r@ == spec_plain_block(path@, content@),
{
    let mut s = String::from_str(path);
    s.append("\n---\n");
    s.append(content);
    s.append("\n---\n");
    proof {
        assert(s@ =~= spec_plain_block(path@, content@));
    }
    s
}

/// Renders a file as a tagged block carrying the given document index.
pub fn print_as_xml(index: usize, path: &str, content: &str) -> (r: String)
    ensures
        r@ == spec_xml_block(index as nat, path@, content@),
{
    let mut s = String::from_str("<document index=\"");
    let idx = usize_to_string(index);
    s.append(idx.as_str());
    s.append("\">\n<source>");
    s.append(path);
    s.append("</source>\n<document_content>\n");
    s.append(content);
    s.append("\n</document_content>\n</document>\n");
    proof {
        assert(s@ =~= spec_xml_block(index as nat, path@, content@));
    }
    s
}

/// The warning emitted on the diagnostic channel when the file at `path`
/// is skipped: it names the file and the reason.
pub open spec fn spec_skip_warning(path: Seq<char>, reason: Seq<char>) -> Seq<char> {
    "Warning: Skipping file \""@ + path + "\" due to "@ + reason
}

/// Builds the diagnostic warning for a skipped file.
pub fn skip_warning(path: &str, reason: &str) -> (r: String)
    ensures
        r@ == spec_skip_warning(path@, reason@),
{
    let mut s = String::from_str("Warning: Skipping file \"");
    s.append(path);
    s.append("\" due to ");
    s.append(reason);
    proof {
        assert(s@ =~= spec_skip_warning(path@, reason@));
    }
    s
}

/// The fatal message for an input path that does not exist.
pub open spec fn spec_missing_path_message(path: Seq<char>) -> Seq<char> {
    "Path does not exist: "@ + path
}

/// Builds the fatal message for a missing input path.
pub fn missing_path_message(path: &str) -> (r: String)
    ensures
        r@ == spec_missing_path_message(path@),
{
    let mut s = String::from_str("Path does not exist: ");
    s.append(path);
    proof {
        assert(s@ =~= spec_missing_path_message(path@));
    }
    s
}

} // verus!
