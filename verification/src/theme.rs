//! Mode-dependent colours and highlight group definitions.
//!
//! Defines the highlight groups used by the statusline components, the
//! mode-to-colour mapping of the mode indicator, and the table of every
//! highlight group the plugin registers.

use vstd::prelude::*;

use crate::text::ascii_lower;

verus! {

/// Vim mode classification used for theming.
#[derive(Debug, Clone, Copy, PartialEq, Eq, Structural, Hash)]
pub enum Mode {
    Normal,
    Insert,
    Visual,
    Replace,
    Command,
    Terminal,
    Select,
}

/// All mode variants, in declaration order.
pub const ALL_MODES: [Mode; 7] = [
    Mode::Normal,
    Mode::Insert,
    Mode::Visual,
    Mode::Replace,
    Mode::Command,
    Mode::Terminal,
    Mode::Select,
];

// ── Highlight group names for non-mode sections ──

/// Statusline background / default section.
pub const HL_DEFAULT: &'static str = "TasukiDefault";
/// File info section (filename, modified flag).
pub const HL_FILE: &'static str = "TasukiFile";
/// Git branch section.
pub const HL_GIT: &'static str = "TasukiGit";
/// Diagnostics — error count.
pub const HL_DIAG_ERROR: &'static str = "TasukiDiagError";
/// Diagnostics — warning count.
pub const HL_DIAG_WARN: &'static str = "TasukiDiagWarn";
/// Diagnostics — info count.
pub const HL_DIAG_INFO: &'static str = "TasukiDiagInfo";
/// Diagnostics — hint count.
pub const HL_DIAG_HINT: &'static str = "TasukiDiagHint";
/// Position / cursor location section.
pub const HL_POSITION: &'static str = "TasukiPosition";
/// Filetype section.
pub const HL_FILETYPE: &'static str = "TasukiFiletype";
/// Encoding section.
pub const HL_ENCODING: &'static str = "TasukiEncoding";

// ── Colour palette (Catppuccin Mocha inspired) ──

const BG_DARK: &'static str = "#1e1e2e";
const BG_MID: &'static str = "#313244";
const FG_TEXT: &'static str = "#cdd6f4";
const FG_SUBTEXT: &'static str = "#a6adc8";
const RED: &'static str = "#f38ba8";
const YELLOW: &'static str = "#f9e2af";
const BLUE: &'static str = "#89b4fa";
const GREEN: &'static str = "#a6e3a1";
const TEAL: &'static str = "#94e2d5";
const LAVENDER: &'static str = "#b4befe";

/// The mode that a Neovim mode string stands for: it is classified by its
/// first byte (see `:help mode()`), and anything unknown, or an empty
/// string, counts as Normal.
pub open spec fn mode_of_bytes(s: Seq<u8>) -> Mode {
    if s.len() == 0 {
        Mode::Normal
    } else {
        let b = s[0];
        if b == 0x6e {
            Mode::Normal
        } else if b == 0x69 {
            Mode::Insert
        } else if b == 0x76 || b == 0x56 || b == 0x16 {
            Mode::Visual
        } else if b == 0x52 {
            Mode::Replace
        } else if b == 0x63 {
            Mode::Command
        } else if b == 0x74 {
            Mode::Terminal
        } else if b == 0x73 || b == 0x53 || b == 0x13 {
            Mode::Select
        } else {
            Mode::Normal
        }
    }
}

impl Mode {
    /// Label shown in the mode indicator.
    pub open spec fn spec_label(self) -> Seq<char> {
        match self {
            Mode::Normal => "NORMAL"@,
            Mode::Insert => "INSERT"@,
            Mode::Visual => "VISUAL"@,
            Mode::Replace => "REPLACE"@,
            Mode::Command => "COMMAND"@,
            Mode::Terminal => "TERMINAL"@,
            Mode::Select => "SELECT"@,
        }
    }

    /// Foreground colour of the mode indicator: the same for every mode.
    pub open spec fn spec_fg(self) -> Seq<char> {
        "#1e1e2e"@
    }

    /// Background colour of the mode indicator.
    pub open spec fn spec_bg(self) -> Seq<char> {
        match self {
            Mode::Normal => "#89b4fa"@,
            Mode::Insert => "#a6e3a1"@,
            Mode::Visual => "#cba6f7"@,
            Mode::Replace => "#f38ba8"@,
            Mode::Command => "#fab387"@,
            Mode::Terminal => "#94e2d5"@,
            Mode::Select => "#f5c2e7"@,
        }
    }

    /// Highlight group of the mode indicator.
    pub open spec fn spec_hl_group(self) -> Seq<char> {
        match self {
            Mode::Normal => "TasukiModeNormal"@,
            Mode::Insert => "TasukiModeInsert"@,
            Mode::Visual => "TasukiModeVisual"@,
            Mode::Replace => "TasukiModeReplace"@,
            Mode::Command => "TasukiModeCommand"@,
            Mode::Terminal => "TasukiModeTerminal"@,
            Mode::Select => "TasukiModeSelect"@,
        }
    }

    /// Parse a Neovim mode string (from `nvim_get_mode`) into a mode,
    /// classifying it by its first byte.
    pub fn from_mode_str(s: &[u8]) -> (m: Mode)
        ensures
            m == mode_of_bytes(s@),
    {
        if s.len() == 0 {
            return Mode::Normal;
        }
        let b = s[0];
        if b == 0x6e {
            Mode::Normal  // n
        } else if b == 0x69 {
            Mode::Insert  // i
        } else if b == 0x76 || b == 0x56 || b == 0x16 {
            Mode::Visual  // v, V, CTRL-V
        } else if b == 0x52 {
            Mode::Replace  // R
        } else if b == 0x63 {
            Mode::Command  // c
        } else if b == 0x74 {
            Mode::Terminal  // t
        } else if b == 0x73 || b == 0x53 || b == 0x13 {
            Mode::Select  // s, S, CTRL-S
        } else {
            Mode::Normal
        }
    }

    /// Human-readable label for the mode indicator.
    pub fn label(self) -> (r: &'static str)
        ensures
            r@ == self.spec_label(),
    {
        match self {
            Mode::Normal => "NORMAL",
            Mode::Insert => "INSERT",
            Mode::Visual => "VISUAL",
            Mode::Replace => "REPLACE",
            Mode::Command => "COMMAND",
            Mode::Terminal => "TERMINAL",
            Mode::Select => "SELECT",
        }
    }

    /// Foreground colour (hex) for the mode indicator.
    pub fn fg(self) -> (r: &'static str)
        ensures
            r@ == self.spec_fg(),
    {
        BG_DARK  // dark background text for all modes
    }

    /// Background colour (hex) for the mode indicator.
    pub fn bg(self) -> (r: &'static str)
        ensures
            r@ == self.spec_bg(),
    {
        match self {
            Mode::Normal => BLUE,
            Mode::Insert => GREEN,
            Mode::Visual => "#cba6f7",  // purple
            Mode::Replace => RED,
            Mode::Command => "#fab387",  // peach
            Mode::Terminal => TEAL,
            Mode::Select => "#f5c2e7",  // pink
        }
    }

    /// The highlight group name for this mode.
    pub fn hl_group(self) -> (r: &'static str)
        ensures
            r@ == self.spec_hl_group(),
    {
        match self {
            Mode::Normal => "TasukiModeNormal",
            Mode::Insert => "TasukiModeInsert",
            Mode::Visual => "TasukiModeVisual",
            Mode::Replace => "TasukiModeReplace",
            Mode::Command => "TasukiModeCommand",
            Mode::Terminal => "TasukiModeTerminal",
            Mode::Select => "TasukiModeSelect",
        }
    }
}

impl Default for Mode {
    fn default() -> (m: Mode)
        ensures
            m == Mode::Normal,
    {
        Mode::Normal
    }
}

/// A mode string is classified by its first byte alone.
pub proof fn lemma_mode_by_first_byte(s: Seq<u8>, t: Seq<u8>)
    requires
        s.len() > 0,
        t.len() > 0,
        s[0] == t[0],
    ensures
        mode_of_bytes(s) == mode_of_bytes(t),
{
}

/// The highlight group of a mode is `TasukiMode` followed by its label in
/// capitalised form (initial capital, the rest lower-cased).
pub proof fn lemma_hl_group_follows_label(m: Mode)
    ensures
        m.spec_hl_group() == "TasukiMode"@ + seq![m.spec_label()[0]] + ascii_lower(
            m.spec_label().drop_first(),
        ),
{
    reveal_strlit("TasukiMode");
    reveal_strlit("NORMAL");
    reveal_strlit("INSERT");
    reveal_strlit("VISUAL");
    reveal_strlit("REPLACE");
    reveal_strlit("COMMAND");
    reveal_strlit("TERMINAL");
    reveal_strlit("SELECT");
    reveal_strlit("TasukiModeNormal");
    reveal_strlit("TasukiModeInsert");
    reveal_strlit("TasukiModeVisual");
    reveal_strlit("TasukiModeReplace");
    reveal_strlit("TasukiModeCommand");
    reveal_strlit("TasukiModeTerminal");
    reveal_strlit("TasukiModeSelect");
    assert(m.spec_hl_group() =~= "TasukiMode"@ + seq![m.spec_label()[0]] + ascii_lower(
        m.spec_label().drop_first(),
    ));
}

/// A mode string that starts with the initial of a mode's label, lower-cased,
/// is that mode, except for Replace, whose mode string starts with a capital
/// `R`; Visual and Select are also entered with a capital initial.
pub proof fn lemma_mode_string_initial(m: Mode)
    ensures
        m != Mode::Replace ==> mode_of_bytes(seq![(m.spec_label()[0] as u8 + 32) as u8]) == m,
        m == Mode::Replace || m == Mode::Visual || m == Mode::Select ==> mode_of_bytes(
            seq![m.spec_label()[0] as u8],
        ) == m,
{
    reveal_strlit("NORMAL");
    reveal_strlit("INSERT");
    reveal_strlit("VISUAL");
    reveal_strlit("REPLACE");
    reveal_strlit("COMMAND");
    reveal_strlit("TERMINAL");
    reveal_strlit("SELECT");
}

/// Distinct modes have distinct labels.
pub proof fn lemma_labels_distinct(a: Mode, b: Mode)
    ensures
        a != b ==> a.spec_label() != b.spec_label(),
{
    reveal_strlit("NORMAL");
    reveal_strlit("INSERT");
    reveal_strlit("VISUAL");
    reveal_strlit("REPLACE");
    reveal_strlit("COMMAND");
    reveal_strlit("TERMINAL");
    reveal_strlit("SELECT");
    if a != b {
        assert(a.spec_label()[0] != b.spec_label()[0] || a.spec_label().len()
            != b.spec_label().len() || a.spec_label()[1] != b.spec_label()[1]);
    }
}

/// Distinct modes have distinct highlight groups.
pub proof fn lemma_hl_groups_distinct(a: Mode, b: Mode)
    ensures
        a != b ==> a.spec_hl_group() != b.spec_hl_group(),
{
    reveal_strlit("TasukiModeNormal");
    reveal_strlit("TasukiModeInsert");
    reveal_strlit("TasukiModeVisual");
    reveal_strlit("TasukiModeReplace");
    reveal_strlit("TasukiModeCommand");
    reveal_strlit("TasukiModeTerminal");
    reveal_strlit("TasukiModeSelect");
    if a != b {
        assert(a.spec_hl_group()[10] != b.spec_hl_group()[10]);
    }
}

/// One highlight group to register: its name, foreground and background
/// colours, and whether it is bold.
#[derive(Debug, Clone, Copy)]
pub struct HighlightDef {
    pub group: &'static str,
    pub fg: &'static str,
    pub bg: &'static str,
    pub bold: bool,
}

impl View for HighlightDef {
    type V = (Seq<char>, Seq<char>, Seq<char>, bool);

    open spec fn view(&self) -> (Seq<char>, Seq<char>, Seq<char>, bool) {
        (self.group@, self.fg@, self.bg@, self.bold)
    }
}

/// The mode-indicator groups, one per mode in the order of `ALL_MODES`,
/// each bold in its mode's colours.
pub open spec fn mode_highlights() -> Seq<(Seq<char>, Seq<char>, Seq<char>, bool)> {
    Seq::new(
        7,
        |i: int| (ALL_MODES@[i].spec_hl_group(), ALL_MODES@[i].spec_fg(), ALL_MODES@[i].spec_bg(), true),
    )
}

/// The section groups, in registration order.
pub open spec fn section_highlights() -> Seq<(Seq<char>, Seq<char>, Seq<char>, bool)> {
    seq![
        (HL_DEFAULT@, "#cdd6f4"@, "#1e1e2e"@, false),
        (HL_FILE@, "#cdd6f4"@, "#313244"@, false),
        (HL_GIT@, "#b4befe"@, "#313244"@, false),
        (HL_DIAG_ERROR@, "#f38ba8"@, "#313244"@, false),
        (HL_DIAG_WARN@, "#f9e2af"@, "#313244"@, false),
        (HL_DIAG_INFO@, "#89b4fa"@, "#313244"@, false),
        (HL_DIAG_HINT@, "#a6e3a1"@, "#313244"@, false),
        (HL_POSITION@, "#a6adc8"@, "#313244"@, false),
        (HL_FILETYPE@, "#94e2d5"@, "#313244"@, false),
        (HL_ENCODING@, "#a6adc8"@, "#313244"@, false),
    ]
}

/// Every highlight group the plugin registers, in registration order:
/// the mode groups first, then the section groups.
pub open spec fn highlight_table() -> Seq<(Seq<char>, Seq<char>, Seq<char>, bool)> {
    mode_highlights() + section_highlights()
}

/// The highlight groups to register at plugin start and again whenever the
/// colour scheme changes.
pub fn highlight_defs() -> (r: Vec<HighlightDef>)
    ensures
        r@.map_values(|d: HighlightDef| d@) == highlight_table(),
{
    let mut r: Vec<HighlightDef> = Vec::new();
    let mut k: usize = 0;
    while k < 7
        invariant
            k <= 7,
            r@.len() == k,
            r@.map_values(|d: HighlightDef| d@) == mode_highlights().take(k as int),
        decreases 7 - k,
    {
        let ghost before = r@;
        let m = ALL_MODES[k];
        assert(m == ALL_MODES@[k as int]);
        r.push(HighlightDef { group: m.hl_group(), fg: m.fg(), bg: m.bg(), bold: true });
        assert forall|j: int| 0 <= j < r@.len() implies #[trigger] r@[j]@ == mode_highlights()[j] by {
            if j < k {
                assert(r@[j] == before[j]);
                assert(before.map_values(|d: HighlightDef| d@)[j] == mode_highlights().take(k as int)[j]);
            }
        }
        k = k + 1;
        assert(r@.map_values(|d: HighlightDef| d@) =~= mode_highlights().take(k as int));
    }
    r.push(HighlightDef { group: HL_DEFAULT, fg: FG_TEXT, bg: BG_DARK, bold: false });
    r.push(HighlightDef { group: HL_FILE, fg: FG_TEXT, bg: BG_MID, bold: false });
    r.push(HighlightDef { group: HL_GIT, fg: LAVENDER, bg: BG_MID, bold: false });
    r.push(HighlightDef { group: HL_DIAG_ERROR, fg: RED, bg: BG_MID, bold: false });
    r.push(HighlightDef { group: HL_DIAG_WARN, fg: YELLOW, bg: BG_MID, bold: false });
    r.push(HighlightDef { group: HL_DIAG_INFO, fg: BLUE, bg: BG_MID, bold: false });
    r.push(HighlightDef { group: HL_DIAG_HINT, fg: GREEN, bg: BG_MID, bold: false });
    r.push(HighlightDef { group: HL_POSITION, fg: FG_SUBTEXT, bg: BG_MID, bold: false });
    r.push(HighlightDef { group: HL_FILETYPE, fg: TEAL, bg: BG_MID, bold: false });
    r.push(HighlightDef { group: HL_ENCODING, fg: FG_SUBTEXT, bg: BG_MID, bold: false });
    assert(mode_highlights().take(7) =~= mode_highlights());
    assert(r@.map_values(|d: HighlightDef| d@) =~= highlight_table());
    r
}

/// Whether `group` is one of the registered highlight groups.
pub open spec fn is_registered(group: Seq<char>) -> bool {
    exists|i: int| 0 <= i < highlight_table().len() && (#[trigger] highlight_table()[i]).0 == group
}

/// Every highlight group that a statusline section switches to is registered.
pub proof fn lemma_all_groups_registered(m: Mode)
    ensures
        is_registered(m.spec_hl_group()),
        is_registered(HL_DEFAULT@),
        is_registered(HL_FILE@),
        is_registered(HL_GIT@),
        is_registered(HL_DIAG_ERROR@),
        is_registered(HL_DIAG_WARN@),
        is_registered(HL_DIAG_INFO@),
        is_registered(HL_DIAG_HINT@),
        is_registered(HL_POSITION@),
        is_registered(HL_FILETYPE@),
        is_registered(HL_ENCODING@),
{
    let t = highlight_table();
    let i: int = match m {
        Mode::Normal => 0,
        Mode::Insert => 1,
        Mode::Visual => 2,
        Mode::Replace => 3,
        Mode::Command => 4,
        Mode::Terminal => 5,
        Mode::Select => 6,
    };
    assert(t[i].0 == m.spec_hl_group());
    assert(t[7].0 == HL_DEFAULT@);
    assert(t[8].0 == HL_FILE@);
    assert(t[9].0 == HL_GIT@);
    assert(t[10].0 == HL_DIAG_ERROR@);
    assert(t[11].0 == HL_DIAG_WARN@);
    assert(t[12].0 == HL_DIAG_INFO@);
    assert(t[13].0 == HL_DIAG_HINT@);
    assert(t[14].0 == HL_POSITION@);
    assert(t[15].0 == HL_FILETYPE@);
    assert(t[16].0 == HL_ENCODING@);
}

/// No highlight group is registered twice.
pub proof fn lemma_registered_groups_distinct(i: int, j: int)
    requires
        0 <= i < j < highlight_table().len(),
    ensures
        highlight_table()[i].0 != highlight_table()[j].0,
{
    reveal_strlit("TasukiModeNormal");
    reveal_strlit("TasukiModeInsert");
    reveal_strlit("TasukiModeVisual");
    reveal_strlit("TasukiModeReplace");
    reveal_strlit("TasukiModeCommand");
    reveal_strlit("TasukiModeTerminal");
    reveal_strlit("TasukiModeSelect");
    reveal_strlit("TasukiDefault");
    reveal_strlit("TasukiFile");
    reveal_strlit("TasukiGit");
    reveal_strlit("TasukiDiagError");
    reveal_strlit("TasukiDiagWarn");
    reveal_strlit("TasukiDiagInfo");
    reveal_strlit("TasukiDiagHint");
    reveal_strlit("TasukiPosition");
    reveal_strlit("TasukiFiletype");
    reveal_strlit("TasukiEncoding");
    let t = highlight_table();
    assert(t.len() == 17);
    let a = t[i].0;
    let b = t[j].0;
    assert(a.len() != b.len() || a[6] != b[6] || a[10] != b[10] || a[11] != b[11] || a[12] != b[12]);
}

} // verus!
