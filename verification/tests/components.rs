use tasuki::components::{
    align_right, diagnostics, encoding, file_icon, filename, filetype, git_branch, hl, mode,
    percent, position, separator, DiagnosticCounts,
};
use tasuki::theme::Mode;

#[test]
fn mode_normal_output() {
    let result = mode(Mode::Normal);
    assert!(result.contains("TasukiModeNormal"));
    assert!(result.contains("NORMAL"));
}

#[test]
fn mode_insert_output() {
    let result = mode(Mode::Insert);
    assert!(result.contains("TasukiModeInsert"));
    assert!(result.contains("INSERT"));
}

#[test]
fn mode_visual_output() {
    let result = mode(Mode::Visual);
    assert!(result.contains("TasukiModeVisual"));
    assert!(result.contains("VISUAL"));
}

#[test]
fn filename_with_path() {
    let result = filename("/home/user/code/main.rs", false);
    assert!(result.contains("main.rs"));
    assert!(!result.contains("[+]"));
}

#[test]
fn filename_modified() {
    let result = filename("/home/user/code/main.rs", true);
    assert!(result.contains("main.rs"));
    assert!(result.contains("[+]"));
}

#[test]
fn filename_empty_path() {
    let result = filename("", false);
    assert!(result.contains("[No Name]"));
}

#[test]
fn filename_no_slash() {
    let result = filename("file.txt", false);
    assert!(result.contains("file.txt"));
}

#[test]
fn git_branch_present() {
    let result = git_branch("main");
    assert!(result.contains("TasukiGit"));
    assert!(result.contains("main"));
}

#[test]
fn git_branch_empty() {
    let result = git_branch("");
    assert!(result.is_empty());
}

#[test]
fn diagnostics_none() {
    let result = diagnostics(DiagnosticCounts::default());
    assert!(result.is_empty());
}

#[test]
fn diagnostics_errors_only() {
    let counts = DiagnosticCounts {
        errors: 3,
        ..Default::default()
    };
    let result = diagnostics(counts);
    assert!(result.contains("TasukiDiagError"));
    assert!(result.contains("3"));
    assert!(!result.contains("TasukiDiagWarn"));
}

#[test]
fn diagnostics_all() {
    let counts = DiagnosticCounts {
        errors: 1,
        warnings: 2,
        info: 3,
        hints: 4,
    };
    let result = diagnostics(counts);
    assert!(result.contains("TasukiDiagError"));
    assert!(result.contains("TasukiDiagWarn"));
    assert!(result.contains("TasukiDiagInfo"));
    assert!(result.contains("TasukiDiagHint"));
}

#[test]
fn diagnostics_is_empty() {
    let empty = DiagnosticCounts::default();
    assert!(empty.is_empty());

    let non_empty = DiagnosticCounts {
        hints: 1,
        ..Default::default()
    };
    assert!(!non_empty.is_empty());
}

#[test]
fn position_format() {
    let result = position(42, 10);
    assert!(result.contains("Ln 42, Col 10"));
    assert!(result.contains("TasukiPosition"));
}

#[test]
fn filetype_present() {
    let result = filetype("rust");
    assert!(result.contains("TasukiFiletype"));
    assert!(result.contains("rust"));
}

#[test]
fn filetype_empty() {
    let result = filetype("");
    assert!(result.is_empty());
}

#[test]
fn encoding_present() {
    let result = encoding("utf-8");
    assert!(result.contains("TasukiEncoding"));
    assert!(result.contains("utf-8"));
}

#[test]
fn encoding_empty() {
    let result = encoding("");
    assert!(result.is_empty());
}

#[test]
fn percent_has_statusline_token() {
    let result = percent();
    assert!(result.contains("%p%%"));
}

#[test]
fn separator_uses_default_hl() {
    let result = separator();
    assert!(result.contains("TasukiDefault"));
}

#[test]
fn align_right_has_equals() {
    let result = align_right();
    assert!(result.contains("%="));
}

#[test]
fn file_icon_rust() {
    assert_eq!(file_icon("main.rs"), "\u{e7a8}");
}

#[test]
fn file_icon_lua() {
    assert_eq!(file_icon("init.lua"), "\u{e620}");
}

#[test]
fn file_icon_unknown() {
    assert_eq!(file_icon("file.xyz"), "\u{f15b}");
}

#[test]
fn file_icon_case_insensitive() {
    assert_eq!(file_icon("Module.RS"), "\u{e7a8}");
}

#[test]
fn file_icon_no_extension() {
    // No dot: the whole name is taken as the extension, which falls through to the default.
    assert_eq!(file_icon("Makefile"), "\u{f15b}");
}

#[test]
fn file_icon_nix() {
    assert_eq!(file_icon("flake.nix"), "\u{f313}");
}

// ── Exact outputs ──

#[test]
fn hl_exact_format() {
    assert_eq!(hl("Group", "text"), "%#Group# text ");
    assert_eq!(hl("", ""), "%##  ");
}

#[test]
fn mode_exact_output() {
    assert_eq!(mode(Mode::Normal), "%#TasukiModeNormal# NORMAL ");
    assert_eq!(mode(Mode::Terminal), "%#TasukiModeTerminal# TERMINAL ");
}

#[test]
fn filename_exact_output() {
    assert_eq!(filename("/a/b/c.rs", false), "%#TasukiFile# c.rs ");
    assert_eq!(filename("/a/b/c.rs", true), "%#TasukiFile# c.rs [+] ");
    assert_eq!(filename("", true), "%#TasukiFile# [No Name] [+] ");
}

#[test]
fn filename_trailing_slash_is_empty_tail() {
    assert_eq!(filename("/tmp/dir/", false), "%#TasukiFile#  ");
}

#[test]
fn filename_unicode_path() {
    assert_eq!(filename("/home/ユーザー/日本語.md", false), "%#TasukiFile# 日本語.md ");
}

#[test]
fn git_branch_exact_output() {
    assert_eq!(git_branch("feature/x"), "%#TasukiGit# \u{e0a0} feature/x ");
}

#[test]
fn diagnostics_exact_output() {
    let counts = DiagnosticCounts { errors: 12, warnings: 0, info: 0, hints: 7 };
    assert_eq!(
        diagnostics(counts),
        "%#TasukiDiagError# \u{f057} 12 %#TasukiDiagHint# \u{f0eb} 7 "
    );
    let counts = DiagnosticCounts { errors: 0, warnings: 1, info: 2, hints: 0 };
    assert_eq!(
        diagnostics(counts),
        "%#TasukiDiagWarn# \u{f071} 1 %#TasukiDiagInfo# \u{f05a} 2 "
    );
}

#[test]
fn diagnostics_largest_count() {
    let counts = DiagnosticCounts { errors: u32::MAX, warnings: 0, info: 0, hints: 0 };
    assert_eq!(diagnostics(counts), format!("%#TasukiDiagError# \u{f057} {} ", u32::MAX));
}

#[test]
fn diagnostics_is_empty_each_field() {
    assert!(!DiagnosticCounts { errors: 1, ..Default::default() }.is_empty());
    assert!(!DiagnosticCounts { warnings: 1, ..Default::default() }.is_empty());
    assert!(!DiagnosticCounts { info: 1, ..Default::default() }.is_empty());
    assert!(DiagnosticCounts { errors: 0, warnings: 0, info: 0, hints: 0 }.is_empty());
}

#[test]
fn position_exact_output() {
    assert_eq!(position(1, 1), "%#TasukiPosition# Ln 1, Col 1 ");
    assert_eq!(position(0, 0), "%#TasukiPosition# Ln 0, Col 0 ");
    assert_eq!(position(100, 9), "%#TasukiPosition# Ln 100, Col 9 ");
}

#[test]
fn position_large_values() {
    let big = usize::MAX;
    assert_eq!(position(big, 10), format!("%#TasukiPosition# Ln {}, Col 10 ", big));
}

#[test]
fn filetype_and_encoding_exact() {
    assert_eq!(filetype("lua"), "%#TasukiFiletype# lua ");
    assert_eq!(encoding("latin1"), "%#TasukiEncoding# latin1 ");
}

#[test]
fn fixed_sections_exact() {
    assert_eq!(percent(), "%#TasukiPosition# %p%% ");
    assert_eq!(separator(), "%#TasukiDefault#");
    assert_eq!(align_right(), "%#TasukiDefault#%=");
}

#[test]
fn file_icon_table() {
    let cases: [(&str, &str); 33] = [
        ("a.rs", "\u{e7a8}"),
        ("a.lua", "\u{e620}"),
        ("a.py", "\u{e73c}"),
        ("a.js", "\u{e74e}"),
        ("a.ts", "\u{e628}"),
        ("a.tsx", "\u{e7ba}"),
        ("a.jsx", "\u{e7ba}"),
        ("a.go", "\u{e626}"),
        ("a.rb", "\u{e791}"),
        ("a.nix", "\u{f313}"),
        ("a.toml", "\u{e6b2}"),
        ("a.yaml", "\u{e6a8}"),
        ("a.yml", "\u{e6a8}"),
        ("a.json", "\u{e60b}"),
        ("a.md", "\u{e73e}"),
        ("a.sh", "\u{e795}"),
        ("a.bash", "\u{e795}"),
        ("a.zsh", "\u{e795}"),
        ("a.vim", "\u{e62b}"),
        ("a.html", "\u{e736}"),
        ("a.css", "\u{e749}"),
        ("a.c", "\u{e61e}"),
        ("a.cpp", "\u{e61d}"),
        ("a.cc", "\u{e61d}"),
        ("a.cxx", "\u{e61d}"),
        ("a.h", "\u{e61e}"),
        ("a.hpp", "\u{e61e}"),
        ("a.java", "\u{e738}"),
        ("a.dockerfile", "\u{e7b0}"),
        ("Cargo.lock", "\u{f023}"),
        ("a.txt", "\u{f0f6}"),
        ("Dockerfile", "\u{e7b0}"),
        ("a.", "\u{f15b}"),
    ];
    for (name, icon) in cases {
        assert_eq!(file_icon(name), icon, "{}", name);
    }
}

#[test]
fn file_icon_uses_last_dot() {
    assert_eq!(file_icon("archive.tar.json"), "\u{e60b}");
    assert_eq!(file_icon("/proj.v2/Makefile"), "\u{f15b}");
    assert_eq!(file_icon(""), "\u{f15b}");
    assert_eq!(file_icon("SCRIPT.Sh"), "\u{e795}");
}
