use r_tvui::config::app::Color;
use r_tvui::paths::{AbsolutePath, File, FileType};
use r_tvui::theme::{theme_for_slug, BorderSides, TextStyle, ThemeId, ThemePalette};

const ALL: [ThemeId; 5] = [ThemeId::Gotyme, ThemeId::Midnight, ThemeId::Forest, ThemeId::Solar, ThemeId::Mono];

fn file(kind: FileType, hidden: bool, is_parent_link: bool) -> File {
    File {
        name: "x".to_string(),
        path: AbsolutePath("/x".to_string()),
        kind,
        size: None,
        modified: None,
        hidden,
        git_status: None,
        is_parent_link,
    }
}

#[test]
fn slugs_round_trip_ignoring_case_and_space() {
    for t in ALL {
        assert_eq!(ThemeId::from_slug(t.slug()), Some(t));
        assert_eq!(ThemeId::from_slug(&format!("  {}\n", t.slug().to_uppercase())), Some(t));
        assert_eq!(theme_for_slug(t.slug()), Some(t));
    }
    assert_eq!(ThemeId::from_slug("nope"), None);
    assert_eq!(ThemeId::from_slug(" GoTyme "), Some(ThemeId::Gotyme));
}

#[test]
fn names_and_count() {
    let names: Vec<&str> = ALL.iter().map(|t| t.name()).collect();
    assert_eq!(names, vec!["GoTyme", "Midnight", "Forest", "Solar", "Mono"]);
    assert_eq!(ThemeId::COUNT, 5);
    assert_eq!(ThemeId::default(), ThemeId::Gotyme);
}

#[test]
fn next_cycles_through_all_five() {
    let mut t = ThemeId::Gotyme;
    let mut seen = Vec::new();
    for _ in 0..ThemeId::COUNT {
        seen.push(t);
        t = t.next();
    }
    assert_eq!(t, ThemeId::Gotyme);
    assert_eq!(seen, ALL.to_vec());
}

#[test]
fn palettes_hold_the_theme_colours() {
    let p = ThemeId::Gotyme.palette();
    assert_eq!(p.bg, Color::Rgb(11, 16, 32));
    assert_eq!(p.border_dim, Color::Rgb(48, 56, 88));
    assert_eq!(ThemeId::Midnight.palette().accent, Color::Rgb(88, 166, 255));
    assert_eq!(ThemeId::Forest.palette().warn, Color::Rgb(220, 180, 90));
    assert_eq!(ThemeId::Solar.palette().ink, Color::Rgb(250, 235, 210));
    assert_eq!(ThemeId::Mono.palette().code, Color::Rgb(24, 24, 24));
}

#[test]
fn entry_glyphs_and_colours() {
    let p = ThemeId::Forest.palette();
    assert_eq!(ThemePalette::entry_glyph(&file(FileType::Directory, false, true)), "▲");
    assert_eq!(ThemePalette::entry_glyph(&file(FileType::Directory, false, false)), "◆");
    assert_eq!(ThemePalette::entry_glyph(&file(FileType::Symlink, false, false)), "⇢");
    assert_eq!(ThemePalette::entry_glyph(&file(FileType::File, false, false)), "·");
    assert_eq!(ThemePalette::entry_glyph(&file(FileType::Other, false, false)), "?");
    assert_eq!(p.entry_color(&file(FileType::Directory, true, false)), p.muted);
    assert_eq!(p.entry_color(&file(FileType::Directory, false, true)), p.accent);
    assert_eq!(p.entry_color(&file(FileType::Directory, false, false)), p.accent_2);
    assert_eq!(p.entry_color(&file(FileType::Symlink, false, false)), p.warn);
    assert_eq!(p.entry_color(&file(FileType::File, false, false)), p.ink);
    assert_eq!(p.entry_color(&file(FileType::Other, false, false)), p.muted);
}

#[test]
fn styles_pick_the_palette_colours() {
    let p = ThemeId::Forest.palette();
    assert_eq!(p.base(), TextStyle { fg: Some(p.ink), bg: Some(p.bg), bold: false });
    assert_eq!(p.brand_style(), TextStyle { fg: Some(p.accent_2), bg: None, bold: true });
    assert_eq!(p.kicker_style().fg, Some(p.accent_2));
    assert_eq!(p.path_style().fg, Some(p.accent));
    assert_eq!(p.muted_style().fg, Some(p.muted));
    assert_eq!(p.hint_style().fg, Some(p.border));
    assert_eq!(p.selection_style(), TextStyle { fg: Some(p.bg), bg: Some(p.accent), bold: true });
    assert_eq!(p.preview_body_style(), TextStyle { fg: Some(p.code_text), bg: Some(p.code), bold: false });
    assert_eq!(p.preview_placeholder_style(), TextStyle { fg: Some(p.muted), bg: Some(p.code), bold: false });
    assert_eq!(p.status_value_style(), TextStyle { fg: Some(p.ok), bg: None, bold: true });
    assert_eq!(p.theme_badge_style().fg, Some(p.warn));
    assert_eq!(p.entry_style(&file(FileType::Symlink, false, false)).fg, Some(p.warn));
    assert_eq!(p.entry_style(&file(FileType::File, true, false)).fg, Some(p.muted));
}

#[test]
fn panels_carry_title_and_borders() {
    let p = ThemeId::Midnight.palette();
    let panel = p.panel_block("Files");
    assert_eq!(panel.title.as_deref(), Some(" Files "));
    assert_eq!(panel.borders, BorderSides::All);
    assert_eq!(panel.title_style, TextStyle { fg: Some(p.accent), bg: None, bold: true });
    assert_eq!(panel.style, TextStyle { fg: Some(p.ink), bg: Some(p.panel), bold: false });
    let bar = p.path_bar_block();
    assert!(bar.title.is_none());
    assert_eq!(bar.style.bg, Some(p.bg_2));
    let status = p.status_block();
    assert_eq!(status.borders, BorderSides::Top);
    assert_eq!(status.border_style.fg, Some(p.border_dim));
    assert_eq!(status.style, TextStyle { fg: Some(p.muted), bg: Some(p.bg), bold: false });
}
