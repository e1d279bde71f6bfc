//! Individual statusline components.
//!
//! Each component renders a small piece of the statusline as a plain string
//! with `%#HlGroup#` highlight switches embedded. Components are pure
//! functions of their inputs, so each one is stated here as the exact
//! sequence of characters it produces.

use vstd::prelude::*;

use crate::text::{ascii_lower, is_decimal_of, lemma_decimal_reads_back, lemma_tail_after_lower, decimal, lower_equals, push_decimal, spec_tail_after, tail_after};
use crate::theme::{
    Mode, HL_DEFAULT, HL_DIAG_ERROR, HL_DIAG_HINT, HL_DIAG_INFO, HL_DIAG_WARN, HL_ENCODING,
    HL_FILE, HL_FILETYPE, HL_GIT, HL_POSITION,
};

verus! {

/// `text` wrapped in a switch to highlight `group`: `%#group# text `.
pub open spec fn hl_view(group: Seq<char>, text: Seq<char>) -> Seq<char> {
    "%#"@ + group + "# "@ + text + " "@
}

/// Wrap `text` with a statusline highlight group switch.
pub fn hl(group: &str, text: &str) -> (r: String)
    ensures
        r@ == hl_view(group@, text@),
{
    let mut out = String::new();
    out.append("%#");
    out.append(group);
    out.append("# ");
    out.append(text);
    out.append(" ");
    out
}

/// The mode indicator of `m`.
pub open spec fn mode_view(m: Mode) -> Seq<char> {
    hl_view(m.spec_hl_group(), m.spec_label())
}

/// Render the mode indicator, e.g. `%#TasukiModeNormal# NORMAL `.
pub fn mode(m: Mode) -> (r: String)
    ensures
        r@ == mode_view(m),
{
    hl(m.hl_group(), m.label())
}

/// The name shown for a buffer: the tail of its path after the last `/`,
/// or `[No Name]` for an empty path.
pub open spec fn buffer_name(path: Seq<char>) -> Seq<char> {
    if path.len() == 0 {
        "[No Name]"@
    } else {
        spec_tail_after(path, '/')
    }
}

/// The buffer name followed by ` [+]` when the buffer is modified.
pub open spec fn file_label(path: Seq<char>, modified: bool) -> Seq<char> {
    buffer_name(path) + if modified { " [+]"@ } else { Seq::empty() }
}

/// The filename section of a buffer.
pub open spec fn filename_view(path: Seq<char>, modified: bool) -> Seq<char> {
    hl_view(HL_FILE@, file_label(path, modified))
}

/// Writes the buffer name and modified flag of `path` into a new string.
pub(crate) fn file_label_string(path: &str, modified: bool) -> (r: String)
    ensures
        r@ == file_label(path@, modified),
{
    let mut out = String::new();
    if path.is_empty() {
        out.append("[No Name]");
    } else {
        out.append(tail_after(path, '/'));
    }
    if modified {
        out.append(" [+]");
    }
    out
}

/// Render the filename section.
///
/// Shows the tail of the file path (just the filename) plus a modified
/// indicator (`[+]`) when the buffer has unsaved changes.
pub fn filename(path: &str, modified: bool) -> (r: String)
    ensures
        r@ == filename_view(path@, modified),
{
    let label = file_label_string(path, modified);
    hl(HL_FILE, label.as_str())
}

/// The git branch section: empty when there is no branch.
pub open spec fn git_branch_view(branch: Seq<char>) -> Seq<char> {
    if branch.len() == 0 {
        Seq::empty()
    } else {
        hl_view(HL_GIT@, "\u{e0a0} "@ + branch)
    }
}

/// Render the git branch section, with the Nerd Font branch icon.
///
/// Returns an empty string when there is no branch (e.g. not in a git repo).
pub fn git_branch(branch: &str) -> (r: String)
    ensures
        r@ == git_branch_view(branch@),
{
    if branch.is_empty() {
        String::new()
    } else {
        let mut text = String::new();
        text.append("\u{e0a0} ");
        text.append(branch);
        hl(HL_GIT, text.as_str())
    }
}

/// Diagnostics counts for the current buffer.
#[derive(Debug, Clone, Copy, PartialEq, Eq, Structural)]
pub struct DiagnosticCounts {
    pub errors: u32,
    pub warnings: u32,
    pub info: u32,
    pub hints: u32,
}

impl Default for DiagnosticCounts {
    fn default() -> (r: DiagnosticCounts)
        ensures
            r == (DiagnosticCounts { errors: 0, warnings: 0, info: 0, hints: 0 }),
    {
        DiagnosticCounts { errors: 0, warnings: 0, info: 0, hints: 0 }
    }
}

impl DiagnosticCounts {
    /// No diagnostics of any kind.
    pub open spec fn spec_is_empty(self) -> bool {
        self.errors == 0 && self.warnings == 0 && self.info == 0 && self.hints == 0
    }

    /// True when there are no diagnostics at all.
    pub fn is_empty(self) -> (r: bool)
        ensures
            r == self.spec_is_empty(),
    {
        self.errors == 0 && self.warnings == 0 && self.info == 0 && self.hints == 0
    }
}

/// One diagnostics count with its icon in its highlight group; nothing when
/// the count is zero.
pub open spec fn count_view(group: Seq<char>, icon: Seq<char>, n: u32) -> Seq<char> {
    if n > 0 {
        hl_view(group, icon + " "@ + decimal(n as nat))
    } else {
        Seq::empty()
    }
}

/// The diagnostics section: errors, warnings, info and hints, in that
/// order, each only when its count is non-zero.
pub open spec fn diagnostics_view(c: DiagnosticCounts) -> Seq<char> {
    count_view(HL_DIAG_ERROR@, "\u{f057}"@, c.errors) + count_view(HL_DIAG_WARN@, "\u{f071}"@, c.warnings)
        + count_view(HL_DIAG_INFO@, "\u{f05a}"@, c.info) + count_view(HL_DIAG_HINT@, "\u{f0eb}"@, c.hints)
}

/// Appends one non-zero diagnostics count with its icon to `out`.
fn push_count(out: &mut String, group: &str, icon: &str, n: u32)
    requires
        n > 0,
    ensures
        final(out)@ == old(out)@ + count_view(group@, icon@, n),
{
    let mut text = String::new();
    text.append(icon);
    text.append(" ");
    push_decimal(&mut text, n as u64);
    let part = hl(group, text.as_str());
    out.append(part.as_str());
}

/// Render the diagnostics section.
///
/// Shows error/warning/info/hint counts with icons. Omits the entire
/// section when there are no diagnostics.
pub fn diagnostics(counts: DiagnosticCounts) -> (r: String)
    ensures
        r@ == diagnostics_view(counts),
{
    if counts.is_empty() {
        assert(diagnostics_view(counts) =~= Seq::<char>::empty());
        return String::new();
    }
    let mut out = String::new();
    if counts.errors > 0 {
        push_count(&mut out, HL_DIAG_ERROR, "\u{f057}", counts.errors);
    }
    let ghost after_errors = out@;
    assert(after_errors =~= count_view(HL_DIAG_ERROR@, "\u{f057}"@, counts.errors));
    if counts.warnings > 0 {
        push_count(&mut out, HL_DIAG_WARN, "\u{f071}", counts.warnings);
    }
    assert(out@ =~= after_errors + count_view(HL_DIAG_WARN@, "\u{f071}"@, counts.warnings));
    let ghost after_warnings = out@;
    if counts.info > 0 {
        push_count(&mut out, HL_DIAG_INFO, "\u{f05a}", counts.info);
    }
    assert(out@ =~= after_warnings + count_view(HL_DIAG_INFO@, "\u{f05a}"@, counts.info));
    let ghost after_info = out@;
    if counts.hints > 0 {
        push_count(&mut out, HL_DIAG_HINT, "\u{f0eb}", counts.hints);
    }
    assert(out@ =~= after_info + count_view(HL_DIAG_HINT@, "\u{f0eb}"@, counts.hints));
    out
}

/// The cursor position section: `Ln X, Col Y`.
pub open spec fn position_view(line: usize, col: usize) -> Seq<char> {
    hl_view(HL_POSITION@, "Ln "@ + decimal(line as nat) + ", Col "@ + decimal(col as nat))
}

/// Render the cursor position section.
///
/// Format: `Ln X, Col Y` — using 1-based line and column.
pub fn position(line: usize, col: usize) -> (r: String)
    ensures
        r@ == position_view(line, col),
{
    let mut text = String::new();
    text.append("Ln ");
    push_decimal(&mut text, line as u64);
    text.append(", Col ");
    push_decimal(&mut text, col as u64);
    hl(HL_POSITION, text.as_str())
}

/// A section that shows `value` in `group`, or nothing when `value` is empty.
pub open spec fn optional_view(group: Seq<char>, value: Seq<char>) -> Seq<char> {
    if value.len() == 0 {
        Seq::empty()
    } else {
        hl_view(group, value)
    }
}

/// Render the filetype section.
///
/// Returns empty when filetype is empty or unset.
pub fn filetype(ft: &str) -> (r: String)
    ensures
        r@ == optional_view(HL_FILETYPE@, ft@),
{
    if ft.is_empty() {
        String::new()
    } else {
        hl(HL_FILETYPE, ft)
    }
}

/// Render the encoding section (e.g. `utf-8`).
///
/// Returns empty when encoding is empty.
pub fn encoding(enc: &str) -> (r: String)
    ensures
        r@ == optional_view(HL_ENCODING@, enc@),
{
    if enc.is_empty() {
        String::new()
    } else {
        hl(HL_ENCODING, enc)
    }
}

/// The percentage-through-file section.
pub open spec fn percent_view() -> Seq<char> {
    hl_view(HL_POSITION@, "%p%%"@)
}

/// Render the percentage through file indicator.
///
/// Uses Neovim's built-in `%p%%` for dynamic percentage.
pub fn percent() -> (r: String)
    ensures
        r@ == percent_view(),
{
    hl(HL_POSITION, "%p%%")
}

/// A switch back to the default highlight group.
pub open spec fn separator_view() -> Seq<char> {
    "%#"@ + HL_DEFAULT@ + "#"@
}

/// Return a separator that resets to the default highlight.
pub fn separator() -> (r: String)
    ensures
        r@ == separator_view(),
{
    let mut out = String::new();
    out.append("%#");
    out.append(HL_DEFAULT);
    out.append("#");
    out
}

/// The default highlight followed by the alignment item `%=`.
pub open spec fn align_right_view() -> Seq<char> {
    "%#"@ + HL_DEFAULT@ + "#%="@
}

/// Return the alignment separator (`%=`) which pushes everything
/// after it to the right.
pub fn align_right() -> (r: String)
    ensures
        r@ == align_right_view(),
{
    let mut out = String::new();
    out.append("%#");
    out.append(HL_DEFAULT);
    out.append("#%=");
    out
}

/// The Nerd Font icon of a lower-cased file extension; a generic file icon
/// for any extension not in the table.
pub open spec fn icon_for_ext(ext: Seq<char>) -> Seq<char> {
    if ext == "rs"@ {
        "\u{e7a8}"@
    } else if ext == "lua"@ {
        "\u{e620}"@
    } else if ext == "py"@ {
        "\u{e73c}"@
    } else if ext == "js"@ {
        "\u{e74e}"@
    } else if ext == "ts"@ {
        "\u{e628}"@
    } else if ext == "tsx"@ {
        "\u{e7ba}"@
    } else if ext == "jsx"@ {
        "\u{e7ba}"@
    } else if ext == "go"@ {
        "\u{e626}"@
    } else if ext == "rb"@ {
        "\u{e791}"@
    } else if ext == "nix"@ {
        "\u{f313}"@
    } else if ext == "toml"@ {
        "\u{e6b2}"@
    } else if ext == "yaml"@ || ext == "yml"@ {
        "\u{e6a8}"@
    } else if ext == "json"@ {
        "\u{e60b}"@
    } else if ext == "md"@ {
        "\u{e73e}"@
    } else if ext == "sh"@ || ext == "bash"@ || ext == "zsh"@ {
        "\u{e795}"@
    } else if ext == "vim"@ {
        "\u{e62b}"@
    } else if ext == "html"@ {
        "\u{e736}"@
    } else if ext == "css"@ {
        "\u{e749}"@
    } else if ext == "c"@ {
        "\u{e61e}"@
    } else if ext == "cpp"@ || ext == "cc"@ || ext == "cxx"@ {
        "\u{e61d}"@
    } else if ext == "h"@ || ext == "hpp"@ {
        "\u{e61e}"@
    } else if ext == "java"@ {
        "\u{e738}"@
    } else if ext == "dockerfile"@ {
        "\u{e7b0}"@
    } else if ext == "lock"@ {
        "\u{f023}"@
    } else if ext == "txt"@ {
        "\u{f0f6}"@
    } else {
        "\u{f15b}"@
    }
}

/// The icon of a file name: that of its extension, the part after the last
/// `.` (the whole name when it has no `.`), compared without regard to ASCII case.
pub open spec fn file_icon_view(filename: Seq<char>) -> Seq<char> {
    icon_for_ext(ascii_lower(spec_tail_after(filename, '.')))
}

/// Look up a Nerd Font icon for the given filename.
///
/// Uses a built-in table of common extensions.
pub fn file_icon(filename: &str) -> (r: &'static str)
    ensures
        r@ == file_icon_view(filename@),
{
    let ext = tail_after(filename, '.');
    if lower_equals(ext, "rs") {
        "\u{e7a8}"  // Rust
    } else if lower_equals(ext, "lua") {
        "\u{e620}"  // Lua
    } else if lower_equals(ext, "py") {
        "\u{e73c}"  // Python
    } else if lower_equals(ext, "js") {
        "\u{e74e}"  // JavaScript
    } else if lower_equals(ext, "ts") {
        "\u{e628}"  // TypeScript
    } else if lower_equals(ext, "tsx") {
        "\u{e7ba}"  // React TSX
    } else if lower_equals(ext, "jsx") {
        "\u{e7ba}"  // React JSX
    } else if lower_equals(ext, "go") {
        "\u{e626}"  // Go
    } else if lower_equals(ext, "rb") {
        "\u{e791}"  // Ruby
    } else if lower_equals(ext, "nix") {
        "\u{f313}"  // Nix
    } else if lower_equals(ext, "toml") {
        "\u{e6b2}"  // TOML
    } else if lower_equals(ext, "yaml") || lower_equals(ext, "yml") {
        "\u{e6a8}"  // YAML
    } else if lower_equals(ext, "json") {
        "\u{e60b}"  // JSON
    } else if lower_equals(ext, "md") {
        "\u{e73e}"  // Markdown
    } else if lower_equals(ext, "sh") || lower_equals(ext, "bash") || lower_equals(ext, "zsh") {
        "\u{e795}"  // Shell
    } else if lower_equals(ext, "vim") {
        "\u{e62b}"  // Vim
    } else if lower_equals(ext, "html") {
        "\u{e736}"  // HTML
    } else if lower_equals(ext, "css") {
        "\u{e749}"  // CSS
    } else if lower_equals(ext, "c") {
        "\u{e61e}"  // C
    } else if lower_equals(ext, "cpp") || lower_equals(ext, "cc") || lower_equals(ext, "cxx") {
        "\u{e61d}"  // C++
    } else if lower_equals(ext, "h") || lower_equals(ext, "hpp") {
        "\u{e61e}"  // Header
    } else if lower_equals(ext, "java") {
        "\u{e738}"  // Java
    } else if lower_equals(ext, "dockerfile") {
        "\u{e7b0}"  // Docker
    } else if lower_equals(ext, "lock") {
        "\u{f023}"  // Lock file
    } else if lower_equals(ext, "txt") {
        "\u{f0f6}"  // Text
    } else {
        "\u{f15b}"  // Generic file
    }
}

/// A highlighted piece of text is never empty.
proof fn lemma_hl_view_nonempty(group: Seq<char>, text: Seq<char>)
    ensures
        hl_view(group, text).len() > 0,
{
    reveal_strlit("%#");
}

/// The diagnostics section is empty exactly when there are no diagnostics.
pub proof fn lemma_diagnostics_empty_iff(c: DiagnosticCounts)
    ensures
        (diagnostics_view(c).len() == 0) == c.spec_is_empty(),
{
    lemma_hl_view_nonempty(HL_DIAG_ERROR@, "\u{f057}"@ + " "@ + decimal(c.errors as nat));
    lemma_hl_view_nonempty(HL_DIAG_WARN@, "\u{f071}"@ + " "@ + decimal(c.warnings as nat));
    lemma_hl_view_nonempty(HL_DIAG_INFO@, "\u{f05a}"@ + " "@ + decimal(c.info as nat));
    lemma_hl_view_nonempty(HL_DIAG_HINT@, "\u{f0eb}"@ + " "@ + decimal(c.hints as nat));
}

/// The git branch, filetype and encoding sections are empty exactly when
/// their value is.
pub proof fn lemma_optional_sections_empty_iff(branch: Seq<char>, ft: Seq<char>, enc: Seq<char>)
    ensures
        (git_branch_view(branch).len() == 0) == (branch.len() == 0),
        (optional_view(HL_FILETYPE@, ft).len() == 0) == (ft.len() == 0),
        (optional_view(HL_ENCODING@, enc).len() == 0) == (enc.len() == 0),
{
    lemma_hl_view_nonempty(HL_GIT@, "\u{e0a0} "@ + branch);
    lemma_hl_view_nonempty(HL_FILETYPE@, ft);
    lemma_hl_view_nonempty(HL_ENCODING@, enc);
}

/// The icon of a file does not depend on ASCII case: two names that agree
/// once lower-cased get the same icon.
pub proof fn lemma_file_icon_ignores_case(a: Seq<char>, b: Seq<char>)
    requires
        ascii_lower(a) == ascii_lower(b),
    ensures
        file_icon_view(a) == file_icon_view(b),
{
    lemma_tail_after_lower(a, '.');
    lemma_tail_after_lower(b, '.');
}

/// The lower-cased extension of a file name: the part after its last `.`
/// (the whole name when it has none), ASCII lower-cased.
pub open spec fn extension_of(filename: Seq<char>) -> Seq<char> {
    ascii_lower(spec_tail_after(filename, '.'))
}

/// Whether `ext` is one of the extensions with an icon of its own.
pub open spec fn has_known_icon(ext: Seq<char>) -> bool {
    ext == "rs"@
        || ext == "lua"@
        || ext == "py"@
        || ext == "js"@
        || ext == "ts"@
        || ext == "tsx"@
        || ext == "jsx"@
        || ext == "go"@
        || ext == "rb"@
        || ext == "nix"@
        || ext == "toml"@
        || ext == "yaml"@
        || ext == "yml"@
        || ext == "json"@
        || ext == "md"@
        || ext == "sh"@
        || ext == "bash"@
        || ext == "zsh"@
        || ext == "vim"@
        || ext == "html"@
        || ext == "css"@
        || ext == "c"@
        || ext == "cpp"@
        || ext == "cc"@
        || ext == "cxx"@
        || ext == "h"@
        || ext == "hpp"@
        || ext == "java"@
        || ext == "dockerfile"@
        || ext == "lock"@
        || ext == "txt"@
}

/// The icon table, entry by entry: each known extension (in any ASCII case)
/// gets its own icon, and every other extension gets the generic file icon.
pub proof fn lemma_file_icon_table(filename: Seq<char>)
    ensures
        extension_of(filename) == "rs"@ ==> file_icon_view(filename) == "\u{e7a8}"@,
        extension_of(filename) == "lua"@ ==> file_icon_view(filename) == "\u{e620}"@,
        extension_of(filename) == "py"@ ==> file_icon_view(filename) == "\u{e73c}"@,
        extension_of(filename) == "js"@ ==> file_icon_view(filename) == "\u{e74e}"@,
        extension_of(filename) == "ts"@ ==> file_icon_view(filename) == "\u{e628}"@,
        extension_of(filename) == "tsx"@ ==> file_icon_view(filename) == "\u{e7ba}"@,
        extension_of(filename) == "jsx"@ ==> file_icon_view(filename) == "\u{e7ba}"@,
        extension_of(filename) == "go"@ ==> file_icon_view(filename) == "\u{e626}"@,
        extension_of(filename) == "rb"@ ==> file_icon_view(filename) == "\u{e791}"@,
        extension_of(filename) == "nix"@ ==> file_icon_view(filename) == "\u{f313}"@,
        extension_of(filename) == "toml"@ ==> file_icon_view(filename) == "\u{e6b2}"@,
        extension_of(filename) == "yaml"@ ==> file_icon_view(filename) == "\u{e6a8}"@,
        extension_of(filename) == "yml"@ ==> file_icon_view(filename) == "\u{e6a8}"@,
        extension_of(filename) == "json"@ ==> file_icon_view(filename) == "\u{e60b}"@,
        extension_of(filename) == "md"@ ==> file_icon_view(filename) == "\u{e73e}"@,
        extension_of(filename) == "sh"@ ==> file_icon_view(filename) == "\u{e795}"@,
        extension_of(filename) == "bash"@ ==> file_icon_view(filename) == "\u{e795}"@,
        extension_of(filename) == "zsh"@ ==> file_icon_view(filename) == "\u{e795}"@,
        extension_of(filename) == "vim"@ ==> file_icon_view(filename) == "\u{e62b}"@,
        extension_of(filename) == "html"@ ==> file_icon_view(filename) == "\u{e736}"@,
        extension_of(filename) == "css"@ ==> file_icon_view(filename) == "\u{e749}"@,
        extension_of(filename) == "c"@ ==> file_icon_view(filename) == "\u{e61e}"@,
        extension_of(filename) == "cpp"@ ==> file_icon_view(filename) == "\u{e61d}"@,
        extension_of(filename) == "cc"@ ==> file_icon_view(filename) == "\u{e61d}"@,
        extension_of(filename) == "cxx"@ ==> file_icon_view(filename) == "\u{e61d}"@,
        extension_of(filename) == "h"@ ==> file_icon_view(filename) == "\u{e61e}"@,
        extension_of(filename) == "hpp"@ ==> file_icon_view(filename) == "\u{e61e}"@,
        extension_of(filename) == "java"@ ==> file_icon_view(filename) == "\u{e738}"@,
        extension_of(filename) == "dockerfile"@ ==> file_icon_view(filename) == "\u{e7b0}"@,
        extension_of(filename) == "lock"@ ==> file_icon_view(filename) == "\u{f023}"@,
        extension_of(filename) == "txt"@ ==> file_icon_view(filename) == "\u{f0f6}"@,
        !has_known_icon(extension_of(filename)) ==> file_icon_view(filename) == "\u{f15b}"@,
{
    assert(icon_for_ext("rs"@) == "\u{e7a8}"@) by {
        reveal_strlit("rs");
    }
    assert(icon_for_ext("lua"@) == "\u{e620}"@) by {
        reveal_strlit("lua");
        reveal_strlit("rs");
        assert("lua"@.len() != "rs"@.len());
    }
    assert(icon_for_ext("py"@) == "\u{e73c}"@) by {
        reveal_strlit("py");
        reveal_strlit("rs");
        assert("py"@[0] != "rs"@[0]);
        reveal_strlit("lua");
        assert("py"@.len() != "lua"@.len());
    }
    assert(icon_for_ext("js"@) == "\u{e74e}"@) by {
        reveal_strlit("js");
        reveal_strlit("rs");
        assert("js"@[0] != "rs"@[0]);
        reveal_strlit("lua");
        assert("js"@.len() != "lua"@.len());
        reveal_strlit("py");
        assert("js"@[0] != "py"@[0]);
    }
    assert(icon_for_ext("ts"@) == "\u{e628}"@) by {
        reveal_strlit("ts");
        reveal_strlit("rs");
        assert("ts"@[0] != "rs"@[0]);
        reveal_strlit("lua");
        assert("ts"@.len() != "lua"@.len());
        reveal_strlit("py");
        assert("ts"@[0] != "py"@[0]);
        reveal_strlit("js");
        assert("ts"@[0] != "js"@[0]);
    }
    assert(icon_for_ext("tsx"@) == "\u{e7ba}"@) by {
        reveal_strlit("tsx");
        reveal_strlit("rs");
        assert("tsx"@.len() != "rs"@.len());
        reveal_strlit("lua");
        assert("tsx"@[0] != "lua"@[0]);
        reveal_strlit("py");
        assert("tsx"@.len() != "py"@.len());
        reveal_strlit("js");
        assert("tsx"@.len() != "js"@.len());
        reveal_strlit("ts");
        assert("tsx"@.len() != "ts"@.len());
    }
    assert(icon_for_ext("jsx"@) == "\u{e7ba}"@) by {
        reveal_strlit("jsx");
        reveal_strlit("rs");
        assert("jsx"@.len() != "rs"@.len());
        reveal_strlit("lua");
        assert("jsx"@[0] != "lua"@[0]);
        reveal_strlit("py");
        assert("jsx"@.len() != "py"@.len());
        reveal_strlit("js");
        assert("jsx"@.len() != "js"@.len());
        reveal_strlit("ts");
        assert("jsx"@.len() != "ts"@.len());
        reveal_strlit("tsx");
        assert("jsx"@[0] != "tsx"@[0]);
    }
    assert(icon_for_ext("go"@) == "\u{e626}"@) by {
        reveal_strlit("go");
        reveal_strlit("rs");
        assert("go"@[0] != "rs"@[0]);
        reveal_strlit("lua");
        assert("go"@.len() != "lua"@.len());
        reveal_strlit("py");
        assert("go"@[0] != "py"@[0]);
        reveal_strlit("js");
        assert("go"@[0] != "js"@[0]);
        reveal_strlit("ts");
        assert("go"@[0] != "ts"@[0]);
        reveal_strlit("tsx");
        assert("go"@.len() != "tsx"@.len());
        reveal_strlit("jsx");
        assert("go"@.len() != "jsx"@.len());
    }
    assert(icon_for_ext("rb"@) == "\u{e791}"@) by {
        reveal_strlit("rb");
        reveal_strlit("rs");
        assert("rb"@[1] != "rs"@[1]);
        reveal_strlit("lua");
        assert("rb"@.len() != "lua"@.len());
        reveal_strlit("py");
        assert("rb"@[0] != "py"@[0]);
        reveal_strlit("js");
        assert("rb"@[0] != "js"@[0]);
        reveal_strlit("ts");
        assert("rb"@[0] != "ts"@[0]);
        reveal_strlit("tsx");
        assert("rb"@.len() != "tsx"@.len());
        reveal_strlit("jsx");
        assert("rb"@.len() != "jsx"@.len());
        reveal_strlit("go");
        assert("rb"@[0] != "go"@[0]);
    }
    assert(icon_for_ext("nix"@) == "\u{f313}"@) by {
        reveal_strlit("nix");
        reveal_strlit("rs");
        assert("nix"@.len() != "rs"@.len());
        reveal_strlit("lua");
        assert("nix"@[0] != "lua"@[0]);
        reveal_strlit("py");
        assert("nix"@.len() != "py"@.len());
        reveal_strlit("js");
        assert("nix"@.len() != "js"@.len());
        reveal_strlit("ts");
        assert("nix"@.len() != "ts"@.len());
        reveal_strlit("tsx");
        assert("nix"@[0] != "tsx"@[0]);
        reveal_strlit("jsx");
        assert("nix"@[0] != "jsx"@[0]);
        reveal_strlit("go");
        assert("nix"@.len() != "go"@.len());
        reveal_strlit("rb");
        assert("nix"@.len() != "rb"@.len());
    }
    assert(icon_for_ext("toml"@) == "\u{e6b2}"@) by {
        reveal_strlit("toml");
        reveal_strlit("rs");
        assert("toml"@.len() != "rs"@.len());
        reveal_strlit("lua");
        assert("toml"@.len() != "lua"@.len());
        reveal_strlit("py");
        assert("toml"@.len() != "py"@.len());
        reveal_strlit("js");
        assert("toml"@.len() != "js"@.len());
        reveal_strlit("ts");
        assert("toml"@.len() != "ts"@.len());
        reveal_strlit("tsx");
        assert("toml"@.len() != "tsx"@.len());
        reveal_strlit("jsx");
        assert("toml"@.len() != "jsx"@.len());
        reveal_strlit("go");
        assert("toml"@.len() != "go"@.len());
        reveal_strlit("rb");
        assert("toml"@.len() != "rb"@.len());
        reveal_strlit("nix");
        assert("toml"@.len() != "nix"@.len());
    }
    assert(icon_for_ext("yaml"@) == "\u{e6a8}"@) by {
        reveal_strlit("yaml");
        reveal_strlit("rs");
        assert("yaml"@.len() != "rs"@.len());
        reveal_strlit("lua");
        assert("yaml"@.len() != "lua"@.len());
        reveal_strlit("py");
        assert("yaml"@.len() != "py"@.len());
        reveal_strlit("js");
        assert("yaml"@.len() != "js"@.len());
        reveal_strlit("ts");
        assert("yaml"@.len() != "ts"@.len());
        reveal_strlit("tsx");
        assert("yaml"@.len() != "tsx"@.len());
        reveal_strlit("jsx");
        assert("yaml"@.len() != "jsx"@.len());
        reveal_strlit("go");
        assert("yaml"@.len() != "go"@.len());
        reveal_strlit("rb");
        assert("yaml"@.len() != "rb"@.len());
        reveal_strlit("nix");
        assert("yaml"@.len() != "nix"@.len());
        reveal_strlit("toml");
        assert("yaml"@[0] != "toml"@[0]);
    }
    assert(icon_for_ext("yml"@) == "\u{e6a8}"@) by {
        reveal_strlit("yml");
        reveal_strlit("rs");
        assert("yml"@.len() != "rs"@.len());
        reveal_strlit("lua");
        assert("yml"@[0] != "lua"@[0]);
        reveal_strlit("py");
        assert("yml"@.len() != "py"@.len());
        reveal_strlit("js");
        assert("yml"@.len() != "js"@.len());
        reveal_strlit("ts");
        assert("yml"@.len() != "ts"@.len());
        reveal_strlit("tsx");
        assert("yml"@[0] != "tsx"@[0]);
        reveal_strlit("jsx");
        assert("yml"@[0] != "jsx"@[0]);
        reveal_strlit("go");
        assert("yml"@.len() != "go"@.len());
        reveal_strlit("rb");
        assert("yml"@.len() != "rb"@.len());
        reveal_strlit("nix");
        assert("yml"@[0] != "nix"@[0]);
        reveal_strlit("toml");
        assert("yml"@.len() != "toml"@.len());
        reveal_strlit("yaml");
        assert("yml"@.len() != "yaml"@.len());
    }
    assert(icon_for_ext("json"@) == "\u{e60b}"@) by {
        reveal_strlit("json");
        reveal_strlit("rs");
        assert("json"@.len() != "rs"@.len());
        reveal_strlit("lua");
        assert("json"@.len() != "lua"@.len());
        reveal_strlit("py");
        assert("json"@.len() != "py"@.len());
        reveal_strlit("js");
        assert("json"@.len() != "js"@.len());
        reveal_strlit("ts");
        assert("json"@.len() != "ts"@.len());
        reveal_strlit("tsx");
        assert("json"@.len() != "tsx"@.len());
        reveal_strlit("jsx");
        assert("json"@.len() != "jsx"@.len());
        reveal_strlit("go");
        assert("json"@.len() != "go"@.len());
        reveal_strlit("rb");
        assert("json"@.len() != "rb"@.len());
        reveal_strlit("nix");
        assert("json"@.len() != "nix"@.len());
        reveal_strlit("toml");
        assert("json"@[0] != "toml"@[0]);
        reveal_strlit("yaml");
        assert("json"@[0] != "yaml"@[0]);
        reveal_strlit("yml");
        assert("json"@.len() != "yml"@.len());
    }
    assert(icon_for_ext("md"@) == "\u{e73e}"@) by {
        reveal_strlit("md");
        reveal_strlit("rs");
        assert("md"@[0] != "rs"@[0]);
        reveal_strlit("lua");
        assert("md"@.len() != "lua"@.len());
        reveal_strlit("py");
        assert("md"@[0] != "py"@[0]);
        reveal_strlit("js");
        assert("md"@[0] != "js"@[0]);
        reveal_strlit("ts");
        assert("md"@[0] != "ts"@[0]);
        reveal_strlit("tsx");
        assert("md"@.len() != "tsx"@.len());
        reveal_strlit("jsx");
        assert("md"@.len() != "jsx"@.len());
        reveal_strlit("go");
        assert("md"@[0] != "go"@[0]);
        reveal_strlit("rb");
        assert("md"@[0] != "rb"@[0]);
        reveal_strlit("nix");
        assert("md"@.len() != "nix"@.len());
        reveal_strlit("toml");
        assert("md"@.len() != "toml"@.len());
        reveal_strlit("yaml");
        assert("md"@.len() != "yaml"@.len());
        reveal_strlit("yml");
        assert("md"@.len() != "yml"@.len());
        reveal_strlit("json");
        assert("md"@.len() != "json"@.len());
    }
    assert(icon_for_ext("sh"@) == "\u{e795}"@) by {
        reveal_strlit("sh");
        reveal_strlit("rs");
        assert("sh"@[0] != "rs"@[0]);
        reveal_strlit("lua");
        assert("sh"@.len() != "lua"@.len());
        reveal_strlit("py");
        assert("sh"@[0] != "py"@[0]);
        reveal_strlit("js");
        assert("sh"@[0] != "js"@[0]);
        reveal_strlit("ts");
        assert("sh"@[0] != "ts"@[0]);
        reveal_strlit("tsx");
        assert("sh"@.len() != "tsx"@.len());
        reveal_strlit("jsx");
        assert("sh"@.len() != "jsx"@.len());
        reveal_strlit("go");
        assert("sh"@[0] != "go"@[0]);
        reveal_strlit("rb");
        assert("sh"@[0] != "rb"@[0]);
        reveal_strlit("nix");
        assert("sh"@.len() != "nix"@.len());
        reveal_strlit("toml");
        assert("sh"@.len() != "toml"@.len());
        reveal_strlit("yaml");
        assert("sh"@.len() != "yaml"@.len());
        reveal_strlit("yml");
        assert("sh"@.len() != "yml"@.len());
        reveal_strlit("json");
        assert("sh"@.len() != "json"@.len());
        reveal_strlit("md");
        assert("sh"@[0] != "md"@[0]);
    }
    assert(icon_for_ext("bash"@) == "\u{e795}"@) by {
        reveal_strlit("bash");
        reveal_strlit("rs");
        assert("bash"@.len() != "rs"@.len());
        reveal_strlit("lua");
        assert("bash"@.len() != "lua"@.len());
        reveal_strlit("py");
        assert("bash"@.len() != "py"@.len());
        reveal_strlit("js");
        assert("bash"@.len() != "js"@.len());
        reveal_strlit("ts");
        assert("bash"@.len() != "ts"@.len());
        reveal_strlit("tsx");
        assert("bash"@.len() != "tsx"@.len());
        reveal_strlit("jsx");
        assert("bash"@.len() != "jsx"@.len());
        reveal_strlit("go");
        assert("bash"@.len() != "go"@.len());
        reveal_strlit("rb");
        assert("bash"@.len() != "rb"@.len());
        reveal_strlit("nix");
        assert("bash"@.len() != "nix"@.len());
        reveal_strlit("toml");
        assert("bash"@[0] != "toml"@[0]);
        reveal_strlit("yaml");
        assert("bash"@[0] != "yaml"@[0]);
        reveal_strlit("yml");
        assert("bash"@.len() != "yml"@.len());
        reveal_strlit("json");
        assert("bash"@[0] != "json"@[0]);
        reveal_strlit("md");
        assert("bash"@.len() != "md"@.len());
        reveal_strlit("sh");
        assert("bash"@.len() != "sh"@.len());
    }
    assert(icon_for_ext("zsh"@) == "\u{e795}"@) by {
        reveal_strlit("zsh");
        reveal_strlit("rs");
        assert("zsh"@.len() != "rs"@.len());
        reveal_strlit("lua");
        assert("zsh"@[0] != "lua"@[0]);
        reveal_strlit("py");
        assert("zsh"@.len() != "py"@.len());
        reveal_strlit("js");
        assert("zsh"@.len() != "js"@.len());
        reveal_strlit("ts");
        assert("zsh"@.len() != "ts"@.len());
        reveal_strlit("tsx");
        assert("zsh"@[0] != "tsx"@[0]);
        reveal_strlit("jsx");
        assert("zsh"@[0] != "jsx"@[0]);
        reveal_strlit("go");
        assert("zsh"@.len() != "go"@.len());
        reveal_strlit("rb");
        assert("zsh"@.len() != "rb"@.len());
        reveal_strlit("nix");
        assert("zsh"@[0] != "nix"@[0]);
        reveal_strlit("toml");
        assert("zsh"@.len() != "toml"@.len());
        reveal_strlit("yaml");
        assert("zsh"@.len() != "yaml"@.len());
        reveal_strlit("yml");
        assert("zsh"@[0] != "yml"@[0]);
        reveal_strlit("json");
        assert("zsh"@.len() != "json"@.len());
        reveal_strlit("md");
        assert("zsh"@.len() != "md"@.len());
        reveal_strlit("sh");
        assert("zsh"@.len() != "sh"@.len());
        reveal_strlit("bash");
        assert("zsh"@.len() != "bash"@.len());
    }
    assert(icon_for_ext("vim"@) == "\u{e62b}"@) by {
        reveal_strlit("vim");
        reveal_strlit("rs");
        assert("vim"@.len() != "rs"@.len());
        reveal_strlit("lua");
        assert("vim"@[0] != "lua"@[0]);
        reveal_strlit("py");
        assert("vim"@.len() != "py"@.len());
        reveal_strlit("js");
        assert("vim"@.len() != "js"@.len());
        reveal_strlit("ts");
        assert("vim"@.len() != "ts"@.len());
        reveal_strlit("tsx");
        assert("vim"@[0] != "tsx"@[0]);
        reveal_strlit("jsx");
        assert("vim"@[0] != "jsx"@[0]);
        reveal_strlit("go");
        assert("vim"@.len() != "go"@.len());
        reveal_strlit("rb");
        assert("vim"@.len() != "rb"@.len());
        reveal_strlit("nix");
        assert("vim"@[0] != "nix"@[0]);
        reveal_strlit("toml");
        assert("vim"@.len() != "toml"@.len());
        reveal_strlit("yaml");
        assert("vim"@.len() != "yaml"@.len());
        reveal_strlit("yml");
        assert("vim"@[0] != "yml"@[0]);
        reveal_strlit("json");
        assert("vim"@.len() != "json"@.len());
        reveal_strlit("md");
        assert("vim"@.len() != "md"@.len());
        reveal_strlit("sh");
        assert("vim"@.len() != "sh"@.len());
        reveal_strlit("bash");
        assert("vim"@.len() != "bash"@.len());
        reveal_strlit("zsh");
        assert("vim"@[0] != "zsh"@[0]);
    }
    assert(icon_for_ext("html"@) == "\u{e736}"@) by {
        reveal_strlit("html");
        reveal_strlit("rs");
        assert("html"@.len() != "rs"@.len());
        reveal_strlit("lua");
        assert("html"@.len() != "lua"@.len());
        reveal_strlit("py");
        assert("html"@.len() != "py"@.len());
        reveal_strlit("js");
        assert("html"@.len() != "js"@.len());
        reveal_strlit("ts");
        assert("html"@.len() != "ts"@.len());
        reveal_strlit("tsx");
        assert("html"@.len() != "tsx"@.len());
        reveal_strlit("jsx");
        assert("html"@.len() != "jsx"@.len());
        reveal_strlit("go");
        assert("html"@.len() != "go"@.len());
        reveal_strlit("rb");
        assert("html"@.len() != "rb"@.len());
        reveal_strlit("nix");
        assert("html"@.len() != "nix"@.len());
        reveal_strlit("toml");
        assert("html"@[0] != "toml"@[0]);
        reveal_strlit("yaml");
        assert("html"@[0] != "yaml"@[0]);
        reveal_strlit("yml");
        assert("html"@.len() != "yml"@.len());
        reveal_strlit("json");
        assert("html"@[0] != "json"@[0]);
        reveal_strlit("md");
        assert("html"@.len() != "md"@.len());
        reveal_strlit("sh");
        assert("html"@.len() != "sh"@.len());
        reveal_strlit("bash");
        assert("html"@[0] != "bash"@[0]);
        reveal_strlit("zsh");
        assert("html"@.len() != "zsh"@.len());
        reveal_strlit("vim");
        assert("html"@.len() != "vim"@.len());
    }
    assert(icon_for_ext("css"@) == "\u{e749}"@) by {
        reveal_strlit("css");
        reveal_strlit("rs");
        assert("css"@.len() != "rs"@.len());
        reveal_strlit("lua");
        assert("css"@[0] != "lua"@[0]);
        reveal_strlit("py");
        assert("css"@.len() != "py"@.len());
        reveal_strlit("js");
        assert("css"@.len() != "js"@.len());
        reveal_strlit("ts");
        assert("css"@.len() != "ts"@.len());
        reveal_strlit("tsx");
        assert("css"@[0] != "tsx"@[0]);
        reveal_strlit("jsx");
        assert("css"@[0] != "jsx"@[0]);
        reveal_strlit("go");
        assert("css"@.len() != "go"@.len());
        reveal_strlit("rb");
        assert("css"@.len() != "rb"@.len());
        reveal_strlit("nix");
        assert("css"@[0] != "nix"@[0]);
        reveal_strlit("toml");
        assert("css"@.len() != "toml"@.len());
        reveal_strlit("yaml");
        assert("css"@.len() != "yaml"@.len());
        reveal_strlit("yml");
        assert("css"@[0] != "yml"@[0]);
        reveal_strlit("json");
        assert("css"@.len() != "json"@.len());
        reveal_strlit("md");
        assert("css"@.len() != "md"@.len());
        reveal_strlit("sh");
        assert("css"@.len() != "sh"@.len());
        reveal_strlit("bash");
        assert("css"@.len() != "bash"@.len());
        reveal_strlit("zsh");
        assert("css"@[0] != "zsh"@[0]);
        reveal_strlit("vim");
        assert("css"@[0] != "vim"@[0]);
        reveal_strlit("html");
        assert("css"@.len() != "html"@.len());
    }
    assert(icon_for_ext("c"@) == "\u{e61e}"@) by {
        reveal_strlit("c");
        reveal_strlit("rs");
        assert("c"@.len() != "rs"@.len());
        reveal_strlit("lua");
        assert("c"@.len() != "lua"@.len());
        reveal_strlit("py");
        assert("c"@.len() != "py"@.len());
        reveal_strlit("js");
        assert("c"@.len() != "js"@.len());
        reveal_strlit("ts");
        assert("c"@.len() != "ts"@.len());
        reveal_strlit("tsx");
        assert("c"@.len() != "tsx"@.len());
        reveal_strlit("jsx");
        assert("c"@.len() != "jsx"@.len());
        reveal_strlit("go");
        assert("c"@.len() != "go"@.len());
        reveal_strlit("rb");
        assert("c"@.len() != "rb"@.len());
        reveal_strlit("nix");
        assert("c"@.len() != "nix"@.len());
        reveal_strlit("toml");
        assert("c"@.len() != "toml"@.len());
        reveal_strlit("yaml");
        assert("c"@.len() != "yaml"@.len());
        reveal_strlit("yml");
        assert("c"@.len() != "yml"@.len());
        reveal_strlit("json");
        assert("c"@.len() != "json"@.len());
        reveal_strlit("md");
        assert("c"@.len() != "md"@.len());
        reveal_strlit("sh");
        assert("c"@.len() != "sh"@.len());
        reveal_strlit("bash");
        assert("c"@.len() != "bash"@.len());
        reveal_strlit("zsh");
        assert("c"@.len() != "zsh"@.len());
        reveal_strlit("vim");
        assert("c"@.len() != "vim"@.len());
        reveal_strlit("html");
        assert("c"@.len() != "html"@.len());
        reveal_strlit("css");
        assert("c"@.len() != "css"@.len());
    }
    assert(icon_for_ext("cpp"@) == "\u{e61d}"@) by {
        reveal_strlit("cpp");
        reveal_strlit("rs");
        assert("cpp"@.len() != "rs"@.len());
        reveal_strlit("lua");
        assert("cpp"@[0] != "lua"@[0]);
        reveal_strlit("py");
        assert("cpp"@.len() != "py"@.len());
        reveal_strlit("js");
        assert("cpp"@.len() != "js"@.len());
        reveal_strlit("ts");
        assert("cpp"@.len() != "ts"@.len());
        reveal_strlit("tsx");
        assert("cpp"@[0] != "tsx"@[0]);
        reveal_strlit("jsx");
        assert("cpp"@[0] != "jsx"@[0]);
        reveal_strlit("go");
        assert("cpp"@.len() != "go"@.len());
        reveal_strlit("rb");
        assert("cpp"@.len() != "rb"@.len());
        reveal_strlit("nix");
        assert("cpp"@[0] != "nix"@[0]);
        reveal_strlit("toml");
        assert("cpp"@.len() != "toml"@.len());
        reveal_strlit("yaml");
        assert("cpp"@.len() != "yaml"@.len());
        reveal_strlit("yml");
        assert("cpp"@[0] != "yml"@[0]);
        reveal_strlit("json");
        assert("cpp"@.len() != "json"@.len());
        reveal_strlit("md");
        assert("cpp"@.len() != "md"@.len());
        reveal_strlit("sh");
        assert("cpp"@.len() != "sh"@.len());
        reveal_strlit("bash");
        assert("cpp"@.len() != "bash"@.len());
        reveal_strlit("zsh");
        assert("cpp"@[0] != "zsh"@[0]);
        reveal_strlit("vim");
        assert("cpp"@[0] != "vim"@[0]);
        reveal_strlit("html");
        assert("cpp"@.len() != "html"@.len());
        reveal_strlit("css");
        assert("cpp"@[1] != "css"@[1]);
        reveal_strlit("c");
        assert("cpp"@.len() != "c"@.len());
    }
    assert(icon_for_ext("cc"@) == "\u{e61d}"@) by {
        reveal_strlit("cc");
        reveal_strlit("rs");
        assert("cc"@[0] != "rs"@[0]);
        reveal_strlit("lua");
        assert("cc"@.len() != "lua"@.len());
        reveal_strlit("py");
        assert("cc"@[0] != "py"@[0]);
        reveal_strlit("js");
        assert("cc"@[0] != "js"@[0]);
        reveal_strlit("ts");
        assert("cc"@[0] != "ts"@[0]);
        reveal_strlit("tsx");
        assert("cc"@.len() != "tsx"@.len());
        reveal_strlit("jsx");
        assert("cc"@.len() != "jsx"@.len());
        reveal_strlit("go");
        assert("cc"@[0] != "go"@[0]);
        reveal_strlit("rb");
        assert("cc"@[0] != "rb"@[0]);
        reveal_strlit("nix");
        assert("cc"@.len() != "nix"@.len());
        reveal_strlit("toml");
        assert("cc"@.len() != "toml"@.len());
        reveal_strlit("yaml");
        assert("cc"@.len() != "yaml"@.len());
        reveal_strlit("yml");
        assert("cc"@.len() != "yml"@.len());
        reveal_strlit("json");
        assert("cc"@.len() != "json"@.len());
        reveal_strlit("md");
        assert("cc"@[0] != "md"@[0]);
        reveal_strlit("sh");
        assert("cc"@[0] != "sh"@[0]);
        reveal_strlit("bash");
        assert("cc"@.len() != "bash"@.len());
        reveal_strlit("zsh");
        assert("cc"@.len() != "zsh"@.len());
        reveal_strlit("vim");
        assert("cc"@.len() != "vim"@.len());
        reveal_strlit("html");
        assert("cc"@.len() != "html"@.len());
        reveal_strlit("css");
        assert("cc"@.len() != "css"@.len());
        reveal_strlit("c");
        assert("cc"@.len() != "c"@.len());
        reveal_strlit("cpp");
        assert("cc"@.len() != "cpp"@.len());
    }
    assert(icon_for_ext("cxx"@) == "\u{e61d}"@) by {
        reveal_strlit("cxx");
        reveal_strlit("rs");
        assert("cxx"@.len() != "rs"@.len());
        reveal_strlit("lua");
        assert("cxx"@[0] != "lua"@[0]);
        reveal_strlit("py");
        assert("cxx"@.len() != "py"@.len());
        reveal_strlit("js");
        assert("cxx"@.len() != "js"@.len());
        reveal_strlit("ts");
        assert("cxx"@.len() != "ts"@.len());
        reveal_strlit("tsx");
        assert("cxx"@[0] != "tsx"@[0]);
        reveal_strlit("jsx");
        assert("cxx"@[0] != "jsx"@[0]);
        reveal_strlit("go");
        assert("cxx"@.len() != "go"@.len());
        reveal_strlit("rb");
        assert("cxx"@.len() != "rb"@.len());
        reveal_strlit("nix");
        assert("cxx"@[0] != "nix"@[0]);
        reveal_strlit("toml");
        assert("cxx"@.len() != "toml"@.len());
        reveal_strlit("yaml");
        assert("cxx"@.len() != "yaml"@.len());
        reveal_strlit("yml");
        assert("cxx"@[0] != "yml"@[0]);
        reveal_strlit("json");
        assert("cxx"@.len() != "json"@.len());
        reveal_strlit("md");
        assert("cxx"@.len() != "md"@.len());
        reveal_strlit("sh");
        assert("cxx"@.len() != "sh"@.len());
        reveal_strlit("bash");
        assert("cxx"@.len() != "bash"@.len());
        reveal_strlit("zsh");
        assert("cxx"@[0] != "zsh"@[0]);
        reveal_strlit("vim");
        assert("cxx"@[0] != "vim"@[0]);
        reveal_strlit("html");
        assert("cxx"@.len() != "html"@.len());
        reveal_strlit("css");
        assert("cxx"@[1] != "css"@[1]);
        reveal_strlit("c");
        assert("cxx"@.len() != "c"@.len());
        reveal_strlit("cpp");
        assert("cxx"@[1] != "cpp"@[1]);
        reveal_strlit("cc");
        assert("cxx"@.len() != "cc"@.len());
    }
    assert(icon_for_ext("h"@) == "\u{e61e}"@) by {
        reveal_strlit("h");
        reveal_strlit("rs");
        assert("h"@.len() != "rs"@.len());
        reveal_strlit("lua");
        assert("h"@.len() != "lua"@.len());
        reveal_strlit("py");
        assert("h"@.len() != "py"@.len());
        reveal_strlit("js");
        assert("h"@.len() != "js"@.len());
        reveal_strlit("ts");
        assert("h"@.len() != "ts"@.len());
        reveal_strlit("tsx");
        assert("h"@.len() != "tsx"@.len());
        reveal_strlit("jsx");
        assert("h"@.len() != "jsx"@.len());
        reveal_strlit("go");
        assert("h"@.len() != "go"@.len());
        reveal_strlit("rb");
        assert("h"@.len() != "rb"@.len());
        reveal_strlit("nix");
        assert("h"@.len() != "nix"@.len());
        reveal_strlit("toml");
        assert("h"@.len() != "toml"@.len());
        reveal_strlit("yaml");
        assert("h"@.len() != "yaml"@.len());
        reveal_strlit("yml");
        assert("h"@.len() != "yml"@.len());
        reveal_strlit("json");
        assert("h"@.len() != "json"@.len());
        reveal_strlit("md");
        assert("h"@.len() != "md"@.len());
        reveal_strlit("sh");
        assert("h"@.len() != "sh"@.len());
        reveal_strlit("bash");
        assert("h"@.len() != "bash"@.len());
        reveal_strlit("zsh");
        assert("h"@.len() != "zsh"@.len());
        reveal_strlit("vim");
        assert("h"@.len() != "vim"@.len());
        reveal_strlit("html");
        assert("h"@.len() != "html"@.len());
        reveal_strlit("css");
        assert("h"@.len() != "css"@.len());
        reveal_strlit("c");
        assert("h"@[0] != "c"@[0]);
        reveal_strlit("cpp");
        assert("h"@.len() != "cpp"@.len());
        reveal_strlit("cc");
        assert("h"@.len() != "cc"@.len());
        reveal_strlit("cxx");
        assert("h"@.len() != "cxx"@.len());
    }
    assert(icon_for_ext("hpp"@) == "\u{e61e}"@) by {
        reveal_strlit("hpp");
        reveal_strlit("rs");
        assert("hpp"@.len() != "rs"@.len());
        reveal_strlit("lua");
        assert("hpp"@[0] != "lua"@[0]);
        reveal_strlit("py");
        assert("hpp"@.len() != "py"@.len());
        reveal_strlit("js");
        assert("hpp"@.len() != "js"@.len());
        reveal_strlit("ts");
        assert("hpp"@.len() != "ts"@.len());
        reveal_strlit("tsx");
        assert("hpp"@[0] != "tsx"@[0]);
        reveal_strlit("jsx");
        assert("hpp"@[0] != "jsx"@[0]);
        reveal_strlit("go");
        assert("hpp"@.len() != "go"@.len());
        reveal_strlit("rb");
        assert("hpp"@.len() != "rb"@.len());
        reveal_strlit("nix");
        assert("hpp"@[0] != "nix"@[0]);
        reveal_strlit("toml");
        assert("hpp"@.len() != "toml"@.len());
        reveal_strlit("yaml");
        assert("hpp"@.len() != "yaml"@.len());
        reveal_strlit("yml");
        assert("hpp"@[0] != "yml"@[0]);
        reveal_strlit("json");
        assert("hpp"@.len() != "json"@.len());
        reveal_strlit("md");
        assert("hpp"@.len() != "md"@.len());
        reveal_strlit("sh");
        assert("hpp"@.len() != "sh"@.len());
        reveal_strlit("bash");
        assert("hpp"@.len() != "bash"@.len());
        reveal_strlit("zsh");
        assert("hpp"@[0] != "zsh"@[0]);
        reveal_strlit("vim");
        assert("hpp"@[0] != "vim"@[0]);
        reveal_strlit("html");
        assert("hpp"@.len() != "html"@.len());
        reveal_strlit("css");
        assert("hpp"@[0] != "css"@[0]);
        reveal_strlit("c");
        assert("hpp"@.len() != "c"@.len());
        reveal_strlit("cpp");
        assert("hpp"@[0] != "cpp"@[0]);
        reveal_strlit("cc");
        assert("hpp"@.len() != "cc"@.len());
        reveal_strlit("cxx");
        assert("hpp"@[0] != "cxx"@[0]);
        reveal_strlit("h");
        assert("hpp"@.len() != "h"@.len());
    }
    assert(icon_for_ext("java"@) == "\u{e738}"@) by {
        reveal_strlit("java");
        reveal_strlit("rs");
        assert("java"@.len() != "rs"@.len());
        reveal_strlit("lua");
        assert("java"@.len() != "lua"@.len());
        reveal_strlit("py");
        assert("java"@.len() != "py"@.len());
        reveal_strlit("js");
        assert("java"@.len() != "js"@.len());
        reveal_strlit("ts");
        assert("java"@.len() != "ts"@.len());
        reveal_strlit("tsx");
        assert("java"@.len() != "tsx"@.len());
        reveal_strlit("jsx");
        assert("java"@.len() != "jsx"@.len());
        reveal_strlit("go");
        assert("java"@.len() != "go"@.len());
        reveal_strlit("rb");
        assert("java"@.len() != "rb"@.len());
        reveal_strlit("nix");
        assert("java"@.len() != "nix"@.len());
        reveal_strlit("toml");
        assert("java"@[0] != "toml"@[0]);
        reveal_strlit("yaml");
        assert("java"@[0] != "yaml"@[0]);
        reveal_strlit("yml");
        assert("java"@.len() != "yml"@.len());
        reveal_strlit("json");
        assert("java"@[1] != "json"@[1]);
        reveal_strlit("md");
        assert("java"@.len() != "md"@.len());
        reveal_strlit("sh");
        assert("java"@.len() != "sh"@.len());
        reveal_strlit("bash");
        assert("java"@[0] != "bash"@[0]);
        reveal_strlit("zsh");
        assert("java"@.len() != "zsh"@.len());
        reveal_strlit("vim");
        assert("java"@.len() != "vim"@.len());
        reveal_strlit("html");
        assert("java"@[0] != "html"@[0]);
        reveal_strlit("css");
        assert("java"@.len() != "css"@.len());
        reveal_strlit("c");
        assert("java"@.len() != "c"@.len());
        reveal_strlit("cpp");
        assert("java"@.len() != "cpp"@.len());
        reveal_strlit("cc");
        assert("java"@.len() != "cc"@.len());
        reveal_strlit("cxx");
        assert("java"@.len() != "cxx"@.len());
        reveal_strlit("h");
        assert("java"@.len() != "h"@.len());
        reveal_strlit("hpp");
        assert("java"@.len() != "hpp"@.len());
    }
    assert(icon_for_ext("dockerfile"@) == "\u{e7b0}"@) by {
        reveal_strlit("dockerfile");
        reveal_strlit("rs");
        assert("dockerfile"@.len() != "rs"@.len());
        reveal_strlit("lua");
        assert("dockerfile"@.len() != "lua"@.len());
        reveal_strlit("py");
        assert("dockerfile"@.len() != "py"@.len());
        reveal_strlit("js");
        assert("dockerfile"@.len() != "js"@.len());
        reveal_strlit("ts");
        assert("dockerfile"@.len() != "ts"@.len());
        reveal_strlit("tsx");
        assert("dockerfile"@.len() != "tsx"@.len());
        reveal_strlit("jsx");
        assert("dockerfile"@.len() != "jsx"@.len());
        reveal_strlit("go");
        assert("dockerfile"@.len() != "go"@.len());
        reveal_strlit("rb");
        assert("dockerfile"@.len() != "rb"@.len());
        reveal_strlit("nix");
        assert("dockerfile"@.len() != "nix"@.len());
        reveal_strlit("toml");
        assert("dockerfile"@.len() != "toml"@.len());
        reveal_strlit("yaml");
        assert("dockerfile"@.len() != "yaml"@.len());
        reveal_strlit("yml");
        assert("dockerfile"@.len() != "yml"@.len());
        reveal_strlit("json");
        assert("dockerfile"@.len() != "json"@.len());
        reveal_strlit("md");
        assert("dockerfile"@.len() != "md"@.len());
        reveal_strlit("sh");
        assert("dockerfile"@.len() != "sh"@.len());
        reveal_strlit("bash");
        assert("dockerfile"@.len() != "bash"@.len());
        reveal_strlit("zsh");
        assert("dockerfile"@.len() != "zsh"@.len());
        reveal_strlit("vim");
        assert("dockerfile"@.len() != "vim"@.len());
        reveal_strlit("html");
        assert("dockerfile"@.len() != "html"@.len());
        reveal_strlit("css");
        assert("dockerfile"@.len() != "css"@.len());
        reveal_strlit("c");
        assert("dockerfile"@.len() != "c"@.len());
        reveal_strlit("cpp");
        assert("dockerfile"@.len() != "cpp"@.len());
        reveal_strlit("cc");
        assert("dockerfile"@.len() != "cc"@.len());
        reveal_strlit("cxx");
        assert("dockerfile"@.len() != "cxx"@.len());
        reveal_strlit("h");
        assert("dockerfile"@.len() != "h"@.len());
        reveal_strlit("hpp");
        assert("dockerfile"@.len() != "hpp"@.len());
        reveal_strlit("java");
        assert("dockerfile"@.len() != "java"@.len());
    }
    assert(icon_for_ext("lock"@) == "\u{f023}"@) by {
        reveal_strlit("lock");
        reveal_strlit("rs");
        assert("lock"@.len() != "rs"@.len());
        reveal_strlit("lua");
        assert("lock"@.len() != "lua"@.len());
        reveal_strlit("py");
        assert("lock"@.len() != "py"@.len());
        reveal_strlit("js");
        assert("lock"@.len() != "js"@.len());
        reveal_strlit("ts");
        assert("lock"@.len() != "ts"@.len());
        reveal_strlit("tsx");
        assert("lock"@.len() != "tsx"@.len());
        reveal_strlit("jsx");
        assert("lock"@.len() != "jsx"@.len());
        reveal_strlit("go");
        assert("lock"@.len() != "go"@.len());
        reveal_strlit("rb");
        assert("lock"@.len() != "rb"@.len());
        reveal_strlit("nix");
        assert("lock"@.len() != "nix"@.len());
        reveal_strlit("toml");
        assert("lock"@[0] != "toml"@[0]);
        reveal_strlit("yaml");
        assert("lock"@[0] != "yaml"@[0]);
        reveal_strlit("yml");
        assert("lock"@.len() != "yml"@.len());
        reveal_strlit("json");
        assert("lock"@[0] != "json"@[0]);
        reveal_strlit("md");
        assert("lock"@.len() != "md"@.len());
        reveal_strlit("sh");
        assert("lock"@.len() != "sh"@.len());
        reveal_strlit("bash");
        assert("lock"@[0] != "bash"@[0]);
        reveal_strlit("zsh");
        assert("lock"@.len() != "zsh"@.len());
        reveal_strlit("vim");
        assert("lock"@.len() != "vim"@.len());
        reveal_strlit("html");
        assert("lock"@[0] != "html"@[0]);
        reveal_strlit("css");
        assert("lock"@.len() != "css"@.len());
        reveal_strlit("c");
        assert("lock"@.len() != "c"@.len());
        reveal_strlit("cpp");
        assert("lock"@.len() != "cpp"@.len());
        reveal_strlit("cc");
        assert("lock"@.len() != "cc"@.len());
        reveal_strlit("cxx");
        assert("lock"@.len() != "cxx"@.len());
        reveal_strlit("h");
        assert("lock"@.len() != "h"@.len());
        reveal_strlit("hpp");
        assert("lock"@.len() != "hpp"@.len());
        reveal_strlit("java");
        assert("lock"@[0] != "java"@[0]);
        reveal_strlit("dockerfile");
        assert("lock"@.len() != "dockerfile"@.len());
    }
    assert(icon_for_ext("txt"@) == "\u{f0f6}"@) by {
        reveal_strlit("txt");
        reveal_strlit("rs");
        assert("txt"@.len() != "rs"@.len());
        reveal_strlit("lua");
        assert("txt"@[0] != "lua"@[0]);
        reveal_strlit("py");
        assert("txt"@.len() != "py"@.len());
        reveal_strlit("js");
        assert("txt"@.len() != "js"@.len());
        reveal_strlit("ts");
        assert("txt"@.len() != "ts"@.len());
        reveal_strlit("tsx");
        assert("txt"@[1] != "tsx"@[1]);
        reveal_strlit("jsx");
        assert("txt"@[0] != "jsx"@[0]);
        reveal_strlit("go");
        assert("txt"@.len() != "go"@.len());
        reveal_strlit("rb");
        assert("txt"@.len() != "rb"@.len());
        reveal_strlit("nix");
        assert("txt"@[0] != "nix"@[0]);
        reveal_strlit("toml");
        assert("txt"@.len() != "toml"@.len());
        reveal_strlit("yaml");
        assert("txt"@.len() != "yaml"@.len());
        reveal_strlit("yml");
        assert("txt"@[0] != "yml"@[0]);
        reveal_strlit("json");
        assert("txt"@.len() != "json"@.len());
        reveal_strlit("md");
        assert("txt"@.len() != "md"@.len());
        reveal_strlit("sh");
        assert("txt"@.len() != "sh"@.len());
        reveal_strlit("bash");
        assert("txt"@.len() != "bash"@.len());
        reveal_strlit("zsh");
        assert("txt"@[0] != "zsh"@[0]);
        reveal_strlit("vim");
        assert("txt"@[0] != "vim"@[0]);
        reveal_strlit("html");
        assert("txt"@.len() != "html"@.len());
        reveal_strlit("css");
        assert("txt"@[0] != "css"@[0]);
        reveal_strlit("c");
        assert("txt"@.len() != "c"@.len());
        reveal_strlit("cpp");
        assert("txt"@[0] != "cpp"@[0]);
        reveal_strlit("cc");
        assert("txt"@.len() != "cc"@.len());
        reveal_strlit("cxx");
        assert("txt"@[0] != "cxx"@[0]);
        reveal_strlit("h");
        assert("txt"@.len() != "h"@.len());
        reveal_strlit("hpp");
        assert("txt"@[0] != "hpp"@[0]);
        reveal_strlit("java");
        assert("txt"@.len() != "java"@.len());
        reveal_strlit("dockerfile");
        assert("txt"@.len() != "dockerfile"@.len());
        reveal_strlit("lock");
        assert("txt"@.len() != "lock"@.len());
    }
}


/// The mode indicator shows the mode's own highlight group and label, and
/// distinct modes get distinct indicators.
pub proof fn lemma_mode_indicator(a: Mode, b: Mode)
    ensures
        mode_view(a) == "%#"@ + a.spec_hl_group() + "# "@ + a.spec_label() + " "@,
        a != b ==> mode_view(a) != mode_view(b),
{
    reveal_strlit("%#");
    crate::theme::lemma_hl_groups_distinct(a, b);
    reveal_strlit("TasukiModeNormal");
    reveal_strlit("TasukiModeInsert");
    reveal_strlit("TasukiModeVisual");
    reveal_strlit("TasukiModeReplace");
    reveal_strlit("TasukiModeCommand");
    reveal_strlit("TasukiModeTerminal");
    reveal_strlit("TasukiModeSelect");
    if a != b {
        assert(mode_view(a)[12] == a.spec_hl_group()[10]);
        assert(mode_view(b)[12] == b.spec_hl_group()[10]);
        assert(a.spec_hl_group()[10] != b.spec_hl_group()[10]);
    }
}

/// `s` shows the count `n` in `group` with `icon`: nothing when `n` is zero,
/// otherwise the group switch, the icon, and digits that read as `n`.
pub open spec fn shows_count(s: Seq<char>, group: Seq<char>, icon: Seq<char>, n: u32) -> bool {
    if n == 0 {
        s.len() == 0
    } else {
        exists|digits: Seq<char>|
            #[trigger] is_decimal_of(digits, n as nat) && s == "%#"@ + group + "# "@ + icon + " "@
                + digits + " "@
    }
}

proof fn lemma_count_view_shows(group: Seq<char>, icon: Seq<char>, n: u32)
    ensures
        shows_count(count_view(group, icon, n), group, icon, n),
{
    if n > 0 {
        lemma_decimal_reads_back(n as nat);
        let d = decimal(n as nat);
        assert(is_decimal_of(d, n as nat));
        assert(count_view(group, icon, n) =~= "%#"@ + group + "# "@ + icon + " "@ + d + " "@);
    }
}

/// The diagnostics section is the error, warning, info and hint parts in
/// that order, each showing its own count and nothing else.
pub proof fn lemma_diagnostics_shows_counts(c: DiagnosticCounts)
    ensures
        exists|e: Seq<char>, w: Seq<char>, i: Seq<char>, h: Seq<char>|
            diagnostics_view(c) == e + w + i + h
            && #[trigger] shows_count(e, HL_DIAG_ERROR@, "\u{f057}"@, c.errors)
            && #[trigger] shows_count(w, HL_DIAG_WARN@, "\u{f071}"@, c.warnings)
            && #[trigger] shows_count(i, HL_DIAG_INFO@, "\u{f05a}"@, c.info)
            && #[trigger] shows_count(h, HL_DIAG_HINT@, "\u{f0eb}"@, c.hints),
{
    let e = count_view(HL_DIAG_ERROR@, "\u{f057}"@, c.errors);
    let w = count_view(HL_DIAG_WARN@, "\u{f071}"@, c.warnings);
    let i = count_view(HL_DIAG_INFO@, "\u{f05a}"@, c.info);
    let h = count_view(HL_DIAG_HINT@, "\u{f0eb}"@, c.hints);
    lemma_count_view_shows(HL_DIAG_ERROR@, "\u{f057}"@, c.errors);
    lemma_count_view_shows(HL_DIAG_WARN@, "\u{f071}"@, c.warnings);
    lemma_count_view_shows(HL_DIAG_INFO@, "\u{f05a}"@, c.info);
    lemma_count_view_shows(HL_DIAG_HINT@, "\u{f0eb}"@, c.hints);
    assert(diagnostics_view(c) == e + w + i + h);
}

/// The position section shows the line after `Ln ` and the column after
/// `, Col `, each as digits that read as that argument.
pub proof fn lemma_position_shows_line_and_col(line: usize, col: usize)
    ensures
        exists|a: Seq<char>, b: Seq<char>|
            #[trigger] is_decimal_of(a, line as nat) && #[trigger] is_decimal_of(b, col as nat)
                && position_view(line, col) == "%#"@ + HL_POSITION@ + "# Ln "@ + a + ", Col "@ + b
                + " "@,
{
    lemma_decimal_reads_back(line as nat);
    lemma_decimal_reads_back(col as nat);
    let a = decimal(line as nat);
    let b = decimal(col as nat);
    assert(is_decimal_of(a, line as nat));
    assert(is_decimal_of(b, col as nat));
    reveal_strlit("# Ln ");
    reveal_strlit("# ");
    reveal_strlit("Ln ");
    assert(position_view(line, col) =~= "%#"@ + HL_POSITION@ + "# Ln "@ + a + ", Col "@ + b + " "@);
}

/// The git branch, filetype and encoding sections: nothing when the value
/// is empty, otherwise the value in its own highlight group (the branch
/// after the branch icon), each independently of the others.
pub proof fn lemma_optional_sections(branch: Seq<char>, ft: Seq<char>, enc: Seq<char>)
    ensures
        branch.len() == 0 ==> git_branch_view(branch).len() == 0,
        branch.len() > 0 ==> git_branch_view(branch) == "%#"@ + HL_GIT@ + "# "@ + "\u{e0a0} "@
            + branch + " "@,
        ft.len() == 0 ==> optional_view(HL_FILETYPE@, ft).len() == 0,
        ft.len() > 0 ==> optional_view(HL_FILETYPE@, ft) == "%#"@ + HL_FILETYPE@ + "# "@ + ft
            + " "@,
        enc.len() == 0 ==> optional_view(HL_ENCODING@, enc).len() == 0,
        enc.len() > 0 ==> optional_view(HL_ENCODING@, enc) == "%#"@ + HL_ENCODING@ + "# "@ + enc
            + " "@,
{
    assert("%#"@ + HL_GIT@ + "# "@ + ("\u{e0a0} "@ + branch) + " "@ =~= "%#"@ + HL_GIT@ + "# "@
        + "\u{e0a0} "@ + branch + " "@);
}

/// The file label is the buffer name (the last segment of the path after
/// `/`, or `[No Name]` for an empty path) followed by ` [+]` exactly when
/// the buffer is modified; the filename section shows it in the file group.
pub proof fn lemma_file_label(path: Seq<char>, modified: bool)
    ensures
        file_label(path, modified) == (if path.len() == 0 {
            "[No Name]"@
        } else {
            spec_tail_after(path, '/')
        }) + (if modified {
            " [+]"@
        } else {
            Seq::empty()
        }),
        filename_view(path, modified) == "%#"@ + HL_FILE@ + "# "@ + file_label(path, modified)
            + " "@,
{
}


/// The separator switches back to the default group, the alignment item is
/// that same switch followed by `%=`, and the percentage indicator is the
/// `%p%%` item in the position group.
pub proof fn lemma_fixed_sections()
    ensures
        separator_view() == "%#TasukiDefault#"@,
        align_right_view() == separator_view() + "%="@,
        percent_view() == "%#TasukiPosition# %p%% "@,
{
    reveal_strlit("%#");
    reveal_strlit("#");
    reveal_strlit("#%=");
    reveal_strlit("%=");
    reveal_strlit("# ");
    reveal_strlit(" ");
    reveal_strlit("%p%%");
    reveal_strlit("TasukiDefault");
    reveal_strlit("TasukiPosition");
    reveal_strlit("%#TasukiDefault#");
    reveal_strlit("%#TasukiPosition# %p%% ");
    assert(separator_view() =~= "%#TasukiDefault#"@);
    assert(align_right_view() =~= separator_view() + "%="@);
    assert(percent_view() =~= "%#TasukiPosition# %p%% "@);
}

} // verus!
