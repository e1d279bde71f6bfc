use tasuki::components::DiagnosticCounts;
use tasuki::render::{render, statusline_expr, StatuslineData};
use tasuki::theme::Mode;

fn sample_data() -> StatuslineData {
    StatuslineData {
        mode: Mode::Normal,
        filepath: "/home/user/project/src/main.rs".to_string(),
        modified: false,
        git_branch: "main".to_string(),
        diagnostics: DiagnosticCounts::default(),
        line: 42,
        col: 10,
        filetype: "rust".to_string(),
        encoding: "utf-8".to_string(),
    }
}

#[test]
fn render_contains_mode() {
    let result = render(&sample_data());
    assert!(result.contains("NORMAL"));
    assert!(result.contains("TasukiModeNormal"));
}

#[test]
fn render_contains_filename() {
    let result = render(&sample_data());
    assert!(result.contains("main.rs"));
}

#[test]
fn render_contains_file_icon() {
    let result = render(&sample_data());
    // Rust icon
    assert!(result.contains('\u{e7a8}'));
}

#[test]
fn render_contains_git_branch() {
    let result = render(&sample_data());
    assert!(result.contains("main"));
    assert!(result.contains("TasukiGit"));
}

#[test]
fn render_contains_position() {
    let result = render(&sample_data());
    assert!(result.contains("Ln 42, Col 10"));
}

#[test]
fn render_contains_filetype() {
    let result = render(&sample_data());
    assert!(result.contains("rust"));
    assert!(result.contains("TasukiFiletype"));
}

#[test]
fn render_contains_encoding() {
    let result = render(&sample_data());
    assert!(result.contains("utf-8"));
}

#[test]
fn render_contains_alignment() {
    let result = render(&sample_data());
    assert!(result.contains("%="));
}

#[test]
fn render_contains_percent() {
    let result = render(&sample_data());
    assert!(result.contains("%p%%"));
}

#[test]
fn render_modified_flag() {
    let mut data = sample_data();
    data.modified = true;
    let result = render(&data);
    assert!(result.contains("[+]"));
}

#[test]
fn render_no_modified_flag() {
    let data = sample_data();
    let result = render(&data);
    assert!(!result.contains("[+]"));
}

#[test]
fn render_no_git_branch() {
    let mut data = sample_data();
    data.git_branch.clear();
    let result = render(&data);
    assert!(!result.contains("TasukiGit"));
}

#[test]
fn render_no_name_buffer() {
    let mut data = sample_data();
    data.filepath.clear();
    let result = render(&data);
    assert!(result.contains("[No Name]"));
}

#[test]
fn render_with_diagnostics() {
    let mut data = sample_data();
    data.diagnostics = DiagnosticCounts {
        errors: 2,
        warnings: 1,
        info: 0,
        hints: 0,
    };
    let result = render(&data);
    assert!(result.contains("TasukiDiagError"));
    assert!(result.contains("2"));
    assert!(result.contains("TasukiDiagWarn"));
    assert!(result.contains("1"));
}

#[test]
fn render_insert_mode() {
    let mut data = sample_data();
    data.mode = Mode::Insert;
    let result = render(&data);
    assert!(result.contains("INSERT"));
    assert!(result.contains("TasukiModeInsert"));
}

#[test]
fn statusline_expr_format() {
    let expr = statusline_expr();
    assert!(expr.contains("v:lua.require('tasuki')"));
    assert!(expr.contains("render_statusline"));
}

// ── Exact outputs ──

#[test]
fn render_sample_exact() {
    assert_eq!(
        render(&sample_data()),
        "%#TasukiModeNormal# NORMAL \
         %#TasukiFile# \u{e7a8} main.rs \
         %#TasukiGit# \u{e0a0} main \
         %#TasukiDefault#%=\
         %#TasukiFiletype# rust \
         %#TasukiEncoding# utf-8 \
         %#TasukiPosition# Ln 42, Col 10 \
         %#TasukiPosition# %p%% "
    );
}

#[test]
fn render_empty_data_exact() {
    let data = StatuslineData::default();
    assert_eq!(
        render(&data),
        "%#TasukiModeNormal# NORMAL \
         %#TasukiFile# \u{f15b} [No Name] \
         %#TasukiDefault#%=\
         %#TasukiPosition# Ln 0, Col 0 \
         %#TasukiPosition# %p%% "
    );
}

#[test]
fn render_full_data_exact() {
    let data = StatuslineData {
        mode: Mode::Command,
        filepath: "/etc/NIXOS/Config.NIX".to_string(),
        modified: true,
        git_branch: "dev".to_string(),
        diagnostics: DiagnosticCounts { errors: 0, warnings: 0, info: 5, hints: 1 },
        line: 7,
        col: 3,
        filetype: "nix".to_string(),
        encoding: String::new(),
    };
    assert_eq!(
        render(&data),
        "%#TasukiModeCommand# COMMAND \
         %#TasukiFile# \u{f313} Config.NIX [+] \
         %#TasukiGit# \u{e0a0} dev \
         %#TasukiDiagInfo# \u{f05a} 5 %#TasukiDiagHint# \u{f0eb} 1 \
         %#TasukiDefault#%=\
         %#TasukiFiletype# nix \
         %#TasukiPosition# Ln 7, Col 3 \
         %#TasukiPosition# %p%% "
    );
}

#[test]
fn statusline_data_default_fields() {
    let data = StatuslineData::default();
    assert_eq!(data.mode, Mode::Normal);
    assert!(data.filepath.is_empty());
    assert!(!data.modified);
    assert!(data.git_branch.is_empty());
    assert_eq!(data.diagnostics, DiagnosticCounts::default());
    assert_eq!((data.line, data.col), (0, 0));
    assert!(data.filetype.is_empty() && data.encoding.is_empty());
}

#[test]
fn statusline_expr_exact() {
    assert_eq!(statusline_expr(), "%{%v:lua.require('tasuki').render_statusline()%}");
}
