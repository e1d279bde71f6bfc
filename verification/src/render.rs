//! Statusline assembly — combines components into a full statusline string.
//!
//! The rendered string uses Neovim's `%#HlGroup#` syntax to switch
//! highlight groups inline. It is set as the global `'statusline'` option.

use vstd::prelude::*;

use crate::components::{
    align_right, align_right_view, diagnostics, diagnostics_view, encoding, file_icon,
    file_icon_view, file_label, file_label_string, filetype, git_branch, git_branch_view, hl,
    hl_view, mode, mode_view, optional_view, percent, percent_view, position, position_view,
    DiagnosticCounts,
};
use crate::theme::{Mode, HL_DEFAULT, HL_ENCODING, HL_FILE, HL_FILETYPE, HL_POSITION};

verus! {

/// All the data needed to render one statusline frame.
///
/// It is filled from Neovim state by the plugin and passed here for pure
/// rendering.
#[derive(Debug, Clone)]
pub struct StatuslineData {
    /// Current Vim mode.
    pub mode: Mode,
    /// Full buffer file path.
    pub filepath: String,
    /// Whether the buffer has been modified.
    pub modified: bool,
    /// Current git branch (empty if not in a repo).
    pub git_branch: String,
    /// LSP diagnostic counts.
    pub diagnostics: DiagnosticCounts,
    /// 1-based cursor line.
    pub line: usize,
    /// 1-based cursor column.
    pub col: usize,
    /// Buffer filetype (e.g. `"rust"`, `"lua"`).
    pub filetype: String,
    /// File encoding (e.g. `"utf-8"`).
    pub encoding: String,
}

impl Default for StatuslineData {
    fn default() -> (d: StatuslineData)
        ensures
            d.mode == Mode::Normal,
            d.filepath@ == Seq::<char>::empty(),
            !d.modified,
            d.git_branch@ == Seq::<char>::empty(),
            d.diagnostics == (DiagnosticCounts { errors: 0, warnings: 0, info: 0, hints: 0 }),
            d.line == 0,
            d.col == 0,
            d.filetype@ == Seq::<char>::empty(),
            d.encoding@ == Seq::<char>::empty(),
    {
        StatuslineData {
            mode: Mode::Normal,
            filepath: String::new(),
            modified: false,
            git_branch: String::new(),
            diagnostics: DiagnosticCounts { errors: 0, warnings: 0, info: 0, hints: 0 },
            line: 0,
            col: 0,
            filetype: String::new(),
            encoding: String::new(),
        }
    }
}

/// The file section of the full statusline: the file's icon, then its name
/// and modified flag.
pub open spec fn file_section_view(path: Seq<char>, modified: bool) -> Seq<char> {
    hl_view(HL_FILE@, file_icon_view(path) + " "@ + file_label(path, modified))
}

/// The left side of the statusline: mode, file, git branch, diagnostics.
pub open spec fn left_view(d: StatuslineData) -> Seq<char> {
    mode_view(d.mode) + file_section_view(d.filepath@, d.modified) + git_branch_view(
        d.git_branch@,
    ) + diagnostics_view(d.diagnostics)
}

/// The right side of the statusline: filetype, encoding, position, percent.
pub open spec fn right_view(d: StatuslineData) -> Seq<char> {
    optional_view(HL_FILETYPE@, d.filetype@) + optional_view(HL_ENCODING@, d.encoding@)
        + position_view(d.line, d.col) + percent_view()
}

/// The whole statusline: the left side, the alignment item, the right side.
pub open spec fn render_view(d: StatuslineData) -> Seq<char> {
    left_view(d) + align_right_view() + right_view(d)
}

/// Render a complete statusline string from the given data.
///
/// Layout:
/// ```text
/// [MODE] [icon filename [+]] [branch] [diagnostics]  %= [filetype] [encoding] [Ln X, Col Y] [pct]
/// ```
pub fn render(data: &StatuslineData) -> (r: String)
    ensures
        r@ == render_view(*data),
{
    // ── Left side ──
    let mut left = mode(data.mode);

    // File icon + filename
    let icon = file_icon(data.filepath.as_str());
    let mut file_text = String::new();
    file_text.append(icon);
    file_text.append(" ");
    let label = file_label_string(data.filepath.as_str(), data.modified);
    file_text.append(label.as_str());
    let file_part = hl(HL_FILE, file_text.as_str());
    left.append(file_part.as_str());

    // Git branch
    let git = git_branch(data.git_branch.as_str());
    left.append(git.as_str());

    // Diagnostics
    let diag = diagnostics(data.diagnostics);
    left.append(diag.as_str());
    assert(left@ =~= left_view(*data));

    // ── Alignment separator ──
    let align = align_right();
    left.append(align.as_str());

    // ── Right side ──
    let mut right = filetype(data.filetype.as_str());
    let enc = encoding(data.encoding.as_str());
    right.append(enc.as_str());
    let pos = position(data.line, data.col);
    right.append(pos.as_str());
    let pct = percent();
    right.append(pct.as_str());
    assert(right@ =~= right_view(*data));

    left.append(right.as_str());
    assert(left@ =~= render_view(*data));
    left
}

/// The layout of the statusline, section by section: the mode indicator,
/// the file section (icon, name, modified flag), the git branch, the
/// diagnostics, the alignment item, then the filetype, the encoding, the
/// position and the percentage. Each optional section depends on its own
/// value only.
pub proof fn lemma_render_layout(d: StatuslineData)
    ensures
        render_view(d) == mode_view(d.mode) + ("%#"@ + HL_FILE@ + "# "@ + file_icon_view(d.filepath@)
            + " "@ + file_label(d.filepath@, d.modified) + " "@) + git_branch_view(d.git_branch@)
            + diagnostics_view(d.diagnostics) + ("%#"@ + HL_DEFAULT@ + "#%="@) + optional_view(
            HL_FILETYPE@,
            d.filetype@,
        ) + optional_view(HL_ENCODING@, d.encoding@) + position_view(d.line, d.col) + ("%#"@
            + HL_POSITION@ + "# %p%% "@),
{
    reveal_strlit("# ");
    reveal_strlit("%p%%");
    reveal_strlit(" ");
    reveal_strlit("# %p%% ");
    assert(percent_view() =~= "%#"@ + HL_POSITION@ + "# %p%% "@);
    assert(file_section_view(d.filepath@, d.modified) =~= "%#"@ + HL_FILE@ + "# "@ + file_icon_view(
        d.filepath@,
    ) + " "@ + file_label(d.filepath@, d.modified) + " "@);
    assert(render_view(d) =~= mode_view(d.mode) + ("%#"@ + HL_FILE@ + "# "@ + file_icon_view(
        d.filepath@,
    ) + " "@ + file_label(d.filepath@, d.modified) + " "@) + git_branch_view(d.git_branch@)
        + diagnostics_view(d.diagnostics) + ("%#"@ + HL_DEFAULT@ + "#%="@) + optional_view(
        HL_FILETYPE@,
        d.filetype@,
    ) + optional_view(HL_ENCODING@, d.encoding@) + position_view(d.line, d.col) + ("%#"@
        + HL_POSITION@ + "# %p%% "@));
}

/// The `'statusline'` value that evaluates the Lua bridge on each redraw.
pub open spec fn statusline_expr_view() -> Seq<char> {
    "%{%v:lua.require('tasuki').render_statusline()%}"@
}

/// Build a statusline string that uses Neovim's `%!` evaluation.
///
/// Instead of embedding literal data, this returns a `'statusline'` value
/// that calls back into Lua → Rust on every redraw, so the mode and cursor
/// position stay current. The Lua bridge calls
/// `require('tasuki').render_statusline()`.
pub fn statusline_expr() -> (r: String)
    ensures
        r@ == statusline_expr_view(),
{
    let mut out = String::new();
    out.append("%{%v:lua.require('tasuki').render_statusline()%}");
    out
}

} // verus!
