use tasuki::theme::{
    highlight_defs, Mode, ALL_MODES, HL_DEFAULT, HL_DIAG_ERROR, HL_DIAG_HINT, HL_DIAG_INFO,
    HL_DIAG_WARN, HL_ENCODING, HL_FILE, HL_FILETYPE, HL_GIT, HL_POSITION,
};

#[test]
fn mode_from_normal() {
    assert_eq!(Mode::from_mode_str(b"n"), Mode::Normal);
}

#[test]
fn mode_from_insert() {
    assert_eq!(Mode::from_mode_str(b"i"), Mode::Insert);
}

#[test]
fn mode_from_visual_variants() {
    assert_eq!(Mode::from_mode_str(b"v"), Mode::Visual);
    assert_eq!(Mode::from_mode_str(b"V"), Mode::Visual);
    assert_eq!(Mode::from_mode_str(&[0x16]), Mode::Visual); // CTRL-V
}

#[test]
fn mode_from_replace() {
    assert_eq!(Mode::from_mode_str(b"R"), Mode::Replace);
}

#[test]
fn mode_from_command() {
    assert_eq!(Mode::from_mode_str(b"c"), Mode::Command);
}

#[test]
fn mode_from_terminal() {
    assert_eq!(Mode::from_mode_str(b"t"), Mode::Terminal);
}

#[test]
fn mode_from_select_variants() {
    assert_eq!(Mode::from_mode_str(b"s"), Mode::Select);
    assert_eq!(Mode::from_mode_str(b"S"), Mode::Select);
    assert_eq!(Mode::from_mode_str(&[0x13]), Mode::Select); // CTRL-S
}

#[test]
fn mode_from_empty_defaults_normal() {
    assert_eq!(Mode::from_mode_str(b""), Mode::Normal);
}

#[test]
fn mode_from_unknown_defaults_normal() {
    assert_eq!(Mode::from_mode_str(b"x"), Mode::Normal);
}

#[test]
fn mode_labels() {
    assert_eq!(Mode::Normal.label(), "NORMAL");
    assert_eq!(Mode::Insert.label(), "INSERT");
    assert_eq!(Mode::Visual.label(), "VISUAL");
    assert_eq!(Mode::Replace.label(), "REPLACE");
    assert_eq!(Mode::Command.label(), "COMMAND");
    assert_eq!(Mode::Terminal.label(), "TERMINAL");
    assert_eq!(Mode::Select.label(), "SELECT");
}

#[test]
fn mode_hl_groups_are_distinct() {
    let groups: Vec<&str> = ALL_MODES.iter().map(|m| m.hl_group()).collect();
    for (i, a) in groups.iter().enumerate() {
        for b in &groups[i + 1..] {
            assert_ne!(a, b);
        }
    }
}

#[test]
fn all_modes_covered() {
    assert_eq!(ALL_MODES.len(), 7);
}

// ── Further cases ──

#[test]
fn mode_from_multi_byte_strings() {
    assert_eq!(Mode::from_mode_str(b"no"), Mode::Normal);
    assert_eq!(Mode::from_mode_str(b"niI"), Mode::Normal);
    assert_eq!(Mode::from_mode_str(b"ic"), Mode::Insert);
    assert_eq!(Mode::from_mode_str(b"Rv"), Mode::Replace);
    assert_eq!(Mode::from_mode_str(b"cv"), Mode::Command);
    assert_eq!(Mode::from_mode_str(b"r?"), Mode::Normal);
    assert_eq!(Mode::from_mode_str(b"!"), Mode::Normal);
}

#[test]
fn mode_default_is_normal() {
    assert_eq!(Mode::default(), Mode::Normal);
}

#[test]
fn mode_colours() {
    for m in ALL_MODES {
        assert_eq!(m.fg(), "#1e1e2e");
    }
    assert_eq!(Mode::Normal.bg(), "#89b4fa");
    assert_eq!(Mode::Insert.bg(), "#a6e3a1");
    assert_eq!(Mode::Visual.bg(), "#cba6f7");
    assert_eq!(Mode::Replace.bg(), "#f38ba8");
    assert_eq!(Mode::Command.bg(), "#fab387");
    assert_eq!(Mode::Terminal.bg(), "#94e2d5");
    assert_eq!(Mode::Select.bg(), "#f5c2e7");
}

#[test]
fn mode_hl_group_names() {
    assert_eq!(Mode::Normal.hl_group(), "TasukiModeNormal");
    assert_eq!(Mode::Insert.hl_group(), "TasukiModeInsert");
    assert_eq!(Mode::Visual.hl_group(), "TasukiModeVisual");
    assert_eq!(Mode::Replace.hl_group(), "TasukiModeReplace");
    assert_eq!(Mode::Command.hl_group(), "TasukiModeCommand");
    assert_eq!(Mode::Terminal.hl_group(), "TasukiModeTerminal");
    assert_eq!(Mode::Select.hl_group(), "TasukiModeSelect");
}

#[test]
fn highlight_defs_table() {
    let defs = highlight_defs();
    assert_eq!(defs.len(), 17);
    for (k, m) in ALL_MODES.iter().enumerate() {
        assert_eq!(defs[k].group, m.hl_group());
        assert_eq!(defs[k].fg, "#1e1e2e");
        assert_eq!(defs[k].bg, m.bg());
        assert!(defs[k].bold);
    }
    let sections: [(&str, &str, &str); 10] = [
        (HL_DEFAULT, "#cdd6f4", "#1e1e2e"),
        (HL_FILE, "#cdd6f4", "#313244"),
        (HL_GIT, "#b4befe", "#313244"),
        (HL_DIAG_ERROR, "#f38ba8", "#313244"),
        (HL_DIAG_WARN, "#f9e2af", "#313244"),
        (HL_DIAG_INFO, "#89b4fa", "#313244"),
        (HL_DIAG_HINT, "#a6e3a1", "#313244"),
        (HL_POSITION, "#a6adc8", "#313244"),
        (HL_FILETYPE, "#94e2d5", "#313244"),
        (HL_ENCODING, "#a6adc8", "#313244"),
    ];
    for (k, (group, fg, bg)) in sections.iter().enumerate() {
        let d = defs[7 + k];
        assert_eq!((d.group, d.fg, d.bg, d.bold), (*group, *fg, *bg, false));
    }
}

#[test]
fn highlight_groups_all_distinct() {
    let defs = highlight_defs();
    for i in 0..defs.len() {
        for j in i + 1..defs.len() {
            assert_ne!(defs[i].group, defs[j].group);
        }
    }
}
