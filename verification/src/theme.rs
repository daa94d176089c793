//! The explorer's colour themes: their names, the order they cycle in,
//! their palettes and the text and panel styles drawn from them.

use vstd::prelude::*;
use crate::config::app::Color;
use crate::paths::{File, FileType};
use crate::text::{ascii_lower, push_chars, str_eq};
use crate::listing::{all_ascii, lowercase, to_lowercase};
use crate::text::{trim, trimmed};

verus! {

/// A colour theme.
#[derive(Debug, Clone, Copy, PartialEq, Eq, Structural)]
pub enum ThemeId {
    Gotyme,
    Midnight,
    Forest,
    Solar,
    Mono,
}

impl Default for ThemeId {
    fn default() -> (r: Self)
        ensures
            r == ThemeId::Gotyme,
    {
        ThemeId::Gotyme
    }
}

/// The colours a theme paints with.
#[derive(Debug, Clone, Copy, PartialEq, Eq, Structural)]
pub struct ThemePalette {
    pub bg: Color,
    pub bg_2: Color,
    pub panel: Color,
    pub code: Color,
    pub ink: Color,
    pub muted: Color,
    pub code_text: Color,
    pub accent: Color,
    pub accent_2: Color,
    pub ok: Color,
    pub warn: Color,
    pub border: Color,
    pub border_dim: Color,
}

/// How a run of text is drawn: its colours, where set, and whether it is
/// bold.
#[derive(Debug, Clone, Copy, PartialEq, Eq, Structural)]
pub struct TextStyle {
    pub fg: Option<Color>,
    pub bg: Option<Color>,
    pub bold: bool,
}

/// The sides of a panel that carry a border line.
#[derive(Debug, Clone, Copy, PartialEq, Eq, Structural)]
pub enum BorderSides {
    All,
    Top,
}

/// How a bordered panel is drawn: its title, if it has one, and the
/// styles of the title, the border and the inside.
#[derive(Debug)]
pub struct PanelStyle {
    pub title: Option<String>,
    pub title_style: TextStyle,
    pub borders: BorderSides,
    pub border_style: TextStyle,
    pub style: TextStyle,
}

/// Plain text in colour `c`.
pub open spec fn fg_style(c: Color) -> TextStyle {
    TextStyle { fg: Some(c), bg: None, bold: false }
}

/// Text in colour `fg` on colour `bg`.
pub open spec fn fg_bg_style(fg: Color, bg: Color) -> TextStyle {
    TextStyle { fg: Some(fg), bg: Some(bg), bold: false }
}

/// Bold text in colour `c`.
pub open spec fn bold_style(c: Color) -> TextStyle {
    TextStyle { fg: Some(c), bg: None, bold: true }
}

fn fg(c: Color) -> (r: TextStyle)
    ensures
        r == fg_style(c),
{
    TextStyle { fg: Some(c), bg: None, bold: false }
}

fn fg_bg(fg: Color, bg: Color) -> (r: TextStyle)
    ensures
        r == fg_bg_style(fg, bg),
{
    TextStyle { fg: Some(fg), bg: Some(bg), bold: false }
}

fn bold(c: Color) -> (r: TextStyle)
    ensures
        r == bold_style(c),
{
    TextStyle { fg: Some(c), bg: None, bold: true }
}

/// The lowercase name a theme is stored under.
pub open spec fn slug_text(t: ThemeId) -> Seq<char> {
    match t {
        ThemeId::Gotyme => "gotyme"@,
        ThemeId::Midnight => "midnight"@,
        ThemeId::Forest => "forest"@,
        ThemeId::Solar => "solar"@,
        ThemeId::Mono => "mono"@,
    }
}

/// The display name of a theme.
pub open spec fn name_text(t: ThemeId) -> Seq<char> {
    match t {
        ThemeId::Gotyme => "GoTyme"@,
        ThemeId::Midnight => "Midnight"@,
        ThemeId::Forest => "Forest"@,
        ThemeId::Solar => "Solar"@,
        ThemeId::Mono => "Mono"@,
    }
}

/// The theme stored under the (already trimmed and lowercased) name `s`.
pub open spec fn theme_of_slug(s: Seq<char>) -> Option<ThemeId> {
    if s == "gotyme"@ {
        Some(ThemeId::Gotyme)
    } else if s == "midnight"@ {
        Some(ThemeId::Midnight)
    } else if s == "forest"@ {
        Some(ThemeId::Forest)
    } else if s == "solar"@ {
        Some(ThemeId::Solar)
    } else if s == "mono"@ {
        Some(ThemeId::Mono)
    } else {
        None
    }
}

/// The theme after `t` in the cycle GoTyme, Midnight, Forest, Solar, Mono.
pub open spec fn next_theme_id(t: ThemeId) -> ThemeId {
    match t {
        ThemeId::Gotyme => ThemeId::Midnight,
        ThemeId::Midnight => ThemeId::Forest,
        ThemeId::Forest => ThemeId::Solar,
        ThemeId::Solar => ThemeId::Mono,
        ThemeId::Mono => ThemeId::Gotyme,
    }
}

/// The palette of each theme.
pub open spec fn theme_id_palette(t: ThemeId) -> ThemePalette {
    match t {
        ThemeId::Gotyme => ThemePalette {
            bg: Color::Rgb(11, 16, 32),
            bg_2: Color::Rgb(16, 23, 48),
            panel: Color::Rgb(20, 27, 54),
            code: Color::Rgb(14, 20, 48),
            ink: Color::Rgb(238, 241, 255),
            muted: Color::Rgb(167, 175, 214),
            code_text: Color::Rgb(205, 224, 255),
            accent: Color::Rgb(124, 156, 255),
            accent_2: Color::Rgb(94, 224, 200),
            ok: Color::Rgb(122, 240, 196),
            warn: Color::Rgb(255, 184, 107),
            border: Color::Rgb(72, 82, 120),
            border_dim: Color::Rgb(48, 56, 88),
        },
        ThemeId::Midnight => ThemePalette {
            bg: Color::Rgb(13, 17, 23),
            bg_2: Color::Rgb(22, 27, 34),
            panel: Color::Rgb(33, 38, 45),
            code: Color::Rgb(13, 17, 23),
            ink: Color::Rgb(230, 237, 243),
            muted: Color::Rgb(139, 148, 158),
            code_text: Color::Rgb(201, 209, 217),
            accent: Color::Rgb(88, 166, 255),
            accent_2: Color::Rgb(126, 231, 135),
            ok: Color::Rgb(126, 231, 135),
            warn: Color::Rgb(247, 129, 102),
            border: Color::Rgb(48, 54, 61),
            border_dim: Color::Rgb(33, 38, 45),
        },
        ThemeId::Forest => ThemePalette {
            bg: Color::Rgb(15, 23, 18),
            bg_2: Color::Rgb(20, 32, 26),
            panel: Color::Rgb(26, 42, 34),
            code: Color::Rgb(12, 20, 16),
            ink: Color::Rgb(220, 237, 228),
            muted: Color::Rgb(140, 170, 155),
            code_text: Color::Rgb(180, 220, 195),
            accent: Color::Rgb(115, 198, 160),
            accent_2: Color::Rgb(94, 224, 180),
            ok: Color::Rgb(130, 220, 170),
            warn: Color::Rgb(220, 180, 90),
            border: Color::Rgb(55, 85, 68),
            border_dim: Color::Rgb(35, 55, 45),
        },
        ThemeId::Solar => ThemePalette {
            bg: Color::Rgb(28, 22, 16),
            bg_2: Color::Rgb(38, 30, 22),
            panel: Color::Rgb(48, 38, 28),
            code: Color::Rgb(24, 18, 12),
            ink: Color::Rgb(250, 235, 210),
            muted: Color::Rgb(180, 155, 120),
            code_text: Color::Rgb(255, 220, 170),
            accent: Color::Rgb(255, 184, 107),
            accent_2: Color::Rgb(255, 210, 120),
            ok: Color::Rgb(210, 230, 140),
            warn: Color::Rgb(255, 140, 90),
            border: Color::Rgb(90, 70, 50),
            border_dim: Color::Rgb(60, 45, 32),
        },
        ThemeId::Mono => ThemePalette {
            bg: Color::Rgb(18, 18, 18),
            bg_2: Color::Rgb(28, 28, 28),
            panel: Color::Rgb(36, 36, 36),
            code: Color::Rgb(24, 24, 24),
            ink: Color::Rgb(230, 230, 230),
            muted: Color::Rgb(140, 140, 140),
            code_text: Color::Rgb(200, 200, 200),
            accent: Color::Rgb(200, 200, 200),
            accent_2: Color::Rgb(180, 180, 180),
            ok: Color::Rgb(220, 220, 220),
            warn: Color::Rgb(160, 160, 160),
            border: Color::Rgb(80, 80, 80),
            border_dim: Color::Rgb(55, 55, 55),
        },
    }
}

/// The colour an entry is drawn in: hidden entries muted, the parent link
/// in the accent, directories in the second accent, symlinks in the
/// warning colour, files in ink and anything else muted.
pub open spec fn entry_colour(p: ThemePalette, entry: File) -> Color {
    if entry.hidden {
        p.muted
    } else {
        match entry.kind {
            FileType::Directory => if entry.is_parent_link {
                p.accent
            } else {
                p.accent_2
            },
            FileType::Symlink => p.warn,
            FileType::File => p.ink,
            FileType::Other => p.muted,
        }
    }
}

/// The glyph drawn before an entry.
pub open spec fn glyph_text(entry: File) -> Seq<char> {
    match entry.kind {
        FileType::Directory => if entry.is_parent_link {
            "▲"@
        } else {
            "◆"@
        },
        FileType::Symlink => "⇢"@,
        FileType::File => "·"@,
        FileType::Other => "?"@,
    }
}

/// The theme stored under `s` once it is trimmed and lowercased.
pub fn theme_for_slug(s: &str) -> (r: Option<ThemeId>)
    ensures
        r == theme_of_slug(s@),
{
    if str_eq(s, "gotyme") {
        Some(ThemeId::Gotyme)
    } else if str_eq(s, "midnight") {
        Some(ThemeId::Midnight)
    } else if str_eq(s, "forest") {
        Some(ThemeId::Forest)
    } else if str_eq(s, "solar") {
        Some(ThemeId::Solar)
    } else if str_eq(s, "mono") {
        Some(ThemeId::Mono)
    } else {
        None
    }
}

impl ThemeId {
    /// How many themes there are.
    pub const COUNT: usize = 5;

    /// The lowercase name the theme is stored under.
    pub fn slug(self) -> (r: &'static str)
        ensures
            r@ == slug_text(self),
    {
        match self {
            ThemeId::Gotyme => "gotyme",
            ThemeId::Midnight => "midnight",
            ThemeId::Forest => "forest",
            ThemeId::Solar => "solar",
            ThemeId::Mono => "mono",
        }
    }

    /// The theme whose stored name is `s`, ignoring surrounding whitespace
    /// and case.
    pub fn from_slug(s: &str) -> (r: Option<Self>)
        ensures
            r == theme_of_slug(lowercase(trimmed(s@))),
            all_ascii(trimmed(s@)) ==> r == theme_of_slug(ascii_lower(trimmed(s@))),
    {
        let t = trim(s);
        let l = to_lowercase(t.as_str());
        theme_for_slug(l.as_str())
    }

    /// The theme's display name.
    pub fn name(self) -> (r: &'static str)
        ensures
            r@ == name_text(self),
    {
        match self {
            ThemeId::Gotyme => "GoTyme",
            ThemeId::Midnight => "Midnight",
            ThemeId::Forest => "Forest",
            ThemeId::Solar => "Solar",
            ThemeId::Mono => "Mono",
        }
    }

    /// The theme after this one in the cycle.
    pub fn next(self) -> (r: Self)
        ensures
            r == next_theme_id(self),
    {
        match self {
            ThemeId::Gotyme => ThemeId::Midnight,
            ThemeId::Midnight => ThemeId::Forest,
            ThemeId::Forest => ThemeId::Solar,
            ThemeId::Solar => ThemeId::Mono,
            ThemeId::Mono => ThemeId::Gotyme,
        }
    }

    /// The theme's colours.
    pub fn palette(self) -> (r: ThemePalette)
        ensures
            r == theme_id_palette(self),
    {
        match self {
            ThemeId::Gotyme => ThemePalette {
                bg: Color::Rgb(11, 16, 32),
                bg_2: Color::Rgb(16, 23, 48),
                panel: Color::Rgb(20, 27, 54),
                code: Color::Rgb(14, 20, 48),
                ink: Color::Rgb(238, 241, 255),
                muted: Color::Rgb(167, 175, 214),
                code_text: Color::Rgb(205, 224, 255),
                accent: Color::Rgb(124, 156, 255),
                accent_2: Color::Rgb(94, 224, 200),
                ok: Color::Rgb(122, 240, 196),
                warn: Color::Rgb(255, 184, 107),
                border: Color::Rgb(72, 82, 120),
                border_dim: Color::Rgb(48, 56, 88),
            },
            ThemeId::Midnight => ThemePalette {
                bg: Color::Rgb(13, 17, 23),
                bg_2: Color::Rgb(22, 27, 34),
                panel: Color::Rgb(33, 38, 45),
                code: Color::Rgb(13, 17, 23),
                ink: Color::Rgb(230, 237, 243),
                muted: Color::Rgb(139, 148, 158),
                code_text: Color::Rgb(201, 209, 217),
                accent: Color::Rgb(88, 166, 255),
                accent_2: Color::Rgb(126, 231, 135),
                ok: Color::Rgb(126, 231, 135),
                warn: Color::Rgb(247, 129, 102),
                border: Color::Rgb(48, 54, 61),
                border_dim: Color::Rgb(33, 38, 45),
            },
            ThemeId::Forest => ThemePalette {
                bg: Color::Rgb(15, 23, 18),
                bg_2: Color::Rgb(20, 32, 26),
                panel: Color::Rgb(26, 42, 34),
                code: Color::Rgb(12, 20, 16),
                ink: Color::Rgb(220, 237, 228),
                muted: Color::Rgb(140, 170, 155),
                code_text: Color::Rgb(180, 220, 195),
                accent: Color::Rgb(115, 198, 160),
                accent_2: Color::Rgb(94, 224, 180),
                ok: Color::Rgb(130, 220, 170),
                warn: Color::Rgb(220, 180, 90),
                border: Color::Rgb(55, 85, 68),
                border_dim: Color::Rgb(35, 55, 45),
            },
            ThemeId::Solar => ThemePalette {
                bg: Color::Rgb(28, 22, 16),
                bg_2: Color::Rgb(38, 30, 22),
                panel: Color::Rgb(48, 38, 28),
                code: Color::Rgb(24, 18, 12),
                ink: Color::Rgb(250, 235, 210),
                muted: Color::Rgb(180, 155, 120),
                code_text: Color::Rgb(255, 220, 170),
                accent: Color::Rgb(255, 184, 107),
                accent_2: Color::Rgb(255, 210, 120),
                ok: Color::Rgb(210, 230, 140),
                warn: Color::Rgb(255, 140, 90),
                border: Color::Rgb(90, 70, 50),
                border_dim: Color::Rgb(60, 45, 32),
            },
            ThemeId::Mono => ThemePalette {
                bg: Color::Rgb(18, 18, 18),
                bg_2: Color::Rgb(28, 28, 28),
                panel: Color::Rgb(36, 36, 36),
                code: Color::Rgb(24, 24, 24),
                ink: Color::Rgb(230, 230, 230),
                muted: Color::Rgb(140, 140, 140),
                code_text: Color::Rgb(200, 200, 200),
                accent: Color::Rgb(200, 200, 200),
                accent_2: Color::Rgb(180, 180, 180),
                ok: Color::Rgb(220, 220, 220),
                warn: Color::Rgb(160, 160, 160),
                border: Color::Rgb(80, 80, 80),
                border_dim: Color::Rgb(55, 55, 55),
            },
        }
    }
}

impl ThemePalette {
    /// The colour `entry` is drawn in.
    pub fn entry_color(&self, entry: &File) -> (r: Color)
        ensures
            r == entry_colour(*self, *entry),
    {
        if entry.hidden {
            return self.muted;
        }
        match entry.kind {
            FileType::Directory => if entry.is_parent_link {
                self.accent
            } else {
                self.accent_2
            },
            FileType::Symlink => self.warn,
            FileType::File => self.ink,
            FileType::Other => self.muted,
        }
    }

    /// The style of the whole screen: ink on the background.
    pub fn base(&self) -> (r: TextStyle)
        ensures
            r == fg_bg_style(self.ink, self.bg),
    {
        fg_bg(self.ink, self.bg)
    }

    /// A panel titled ` title ` in bold accent, with a border all round in
    /// the border colour, ink on the panel colour inside.
    pub fn panel_block(&self, title: &str) -> (r: PanelStyle)
        ensures
            r.title matches Some(t) && t@ == " "@ + title@ + " "@,
            r.title_style == bold_style(self.accent),
            r.borders == BorderSides::All,
            r.border_style == fg_style(self.border),
            r.style == fg_bg_style(self.ink, self.panel),
    {
        let mut t = String::new();
        push_chars(&mut t, " ");
        push_chars(&mut t, title);
        push_chars(&mut t, " ");
        PanelStyle {
            title: Some(t),
            title_style: bold(self.accent),
            borders: BorderSides::All,
            border_style: fg(self.border),
            style: fg_bg(self.ink, self.panel),
        }
    }

    /// The path bar: untitled, a border all round in the border colour, ink
    /// on the second background inside.
    pub fn path_bar_block(&self) -> (r: PanelStyle)
        ensures
            r.title is None,
            r.title_style == (TextStyle { fg: None, bg: None, bold: false }),
            r.borders == BorderSides::All,
            r.border_style == fg_style(self.border),
            r.style == fg_bg_style(self.ink, self.bg_2),
    {
        PanelStyle {
            title: None,
            title_style: TextStyle { fg: None, bg: None, bold: false },
            borders: BorderSides::All,
            border_style: fg(self.border),
            style: fg_bg(self.ink, self.bg_2),
        }
    }

    /// The status line: untitled, a border on top in the dim border colour,
    /// muted text on the background inside.
    pub fn status_block(&self) -> (r: PanelStyle)
        ensures
            r.title is None,
            r.title_style == (TextStyle { fg: None, bg: None, bold: false }),
            r.borders == BorderSides::Top,
            r.border_style == fg_style(self.border_dim),
            r.style == fg_bg_style(self.muted, self.bg),
    {
        PanelStyle {
            title: None,
            title_style: TextStyle { fg: None, bg: None, bold: false },
            borders: BorderSides::Top,
            border_style: fg(self.border_dim),
            style: fg_bg(self.muted, self.bg),
        }
    }

    /// The brand name: bold, in the second accent.
    pub fn brand_style(&self) -> (r: TextStyle)
        ensures
            r == bold_style(self.accent_2),
    {
        bold(self.accent_2)
    }

    /// Labels: the second accent.
    pub fn kicker_style(&self) -> (r: TextStyle)
        ensures
            r == fg_style(self.accent_2),
    {
        fg(self.accent_2)
    }

    /// Paths: the accent.
    pub fn path_style(&self) -> (r: TextStyle)
        ensures
            r == fg_style(self.accent),
    {
        fg(self.accent)
    }

    /// Secondary text: the muted colour.
    pub fn muted_style(&self) -> (r: TextStyle)
        ensures
            r == fg_style(self.muted),
    {
        fg(self.muted)
    }

    /// Key hints: the border colour.
    pub fn hint_style(&self) -> (r: TextStyle)
        ensures
            r == fg_style(self.border),
    {
        fg(self.border)
    }

    /// The selected row: bold background colour on the accent.
    pub fn selection_style(&self) -> (r: TextStyle)
        ensures
            r == (TextStyle { fg: Some(self.bg), bg: Some(self.accent), bold: true }),
    {
        TextStyle { fg: Some(self.bg), bg: Some(self.accent), bold: true }
    }

    /// A text preview: code text on the code background.
    pub fn preview_body_style(&self) -> (r: TextStyle)
        ensures
            r == fg_bg_style(self.code_text, self.code),
    {
        fg_bg(self.code_text, self.code)
    }

    /// The placeholder where no preview is shown: muted on the code
    /// background.
    pub fn preview_placeholder_style(&self) -> (r: TextStyle)
        ensures
            r == fg_bg_style(self.muted, self.code),
    {
        fg_bg(self.muted, self.code)
    }

    /// Values in the status line: bold, in the ok colour.
    pub fn status_value_style(&self) -> (r: TextStyle)
        ensures
            r == bold_style(self.ok),
    {
        bold(self.ok)
    }

    /// The theme's badge: the warning colour.
    pub fn theme_badge_style(&self) -> (r: TextStyle)
        ensures
            r == fg_style(self.warn),
    {
        fg(self.warn)
    }

    /// The style of a listed entry: its colour (see `entry_color`).
    pub fn entry_style(&self, entry: &File) -> (r: TextStyle)
        ensures
            r == fg_style(entry_colour(*self, *entry)),
    {
        let c = self.entry_color(entry);
        fg(c)
    }

    /// The glyph drawn before `entry`.
    pub fn entry_glyph(entry: &File) -> (r: &'static str)
        ensures
            r@ == glyph_text(*entry),
    {
        match entry.kind {
            FileType::Directory => if entry.is_parent_link {
                "▲"
            } else {
                "◆"
            },
            FileType::Symlink => "⇢",
            FileType::File => "·",
            FileType::Other => "?",
        }
    }
}

/// Five steps of the theme cycle come back to the start, and no fewer do,
/// so the cycle passes through all five themes.
pub proof fn lemma_theme_cycle(t: ThemeId)
    ensures
        next_theme_id(next_theme_id(next_theme_id(next_theme_id(next_theme_id(t))))) == t,
        next_theme_id(t) != t,
        next_theme_id(next_theme_id(t)) != t,
        next_theme_id(next_theme_id(next_theme_id(t))) != t,
        next_theme_id(next_theme_id(next_theme_id(next_theme_id(t)))) != t,
{
}

/// A theme is found again under its stored name, so different themes have
/// different stored names.
pub proof fn lemma_slug_round_trip(t: ThemeId, u: ThemeId)
    ensures
        theme_of_slug(slug_text(t)) == Some(t),
        slug_text(t) == slug_text(u) ==> t == u,
{
    reveal_strlit("gotyme");
    reveal_strlit("midnight");
    reveal_strlit("forest");
    reveal_strlit("solar");
    reveal_strlit("mono");
    assert("midnight"@.len() == 8);
    assert("solar"@.len() == 5);
    assert("mono"@.len() == 4);
    assert("gotyme"@[0] != "forest"@[0]);
    assert("gotyme"@ != "forest"@);
    assert("gotyme"@ != "midnight"@);
    assert("gotyme"@ != "solar"@);
    assert("gotyme"@ != "mono"@);
    assert("midnight"@ != "forest"@);
    assert("midnight"@ != "solar"@);
    assert("midnight"@ != "mono"@);
    assert("forest"@ != "solar"@);
    assert("forest"@ != "mono"@);
    assert("solar"@ != "mono"@);
}

/// A theme's display name, with its ASCII capitals made small, is the
/// name it is stored under (the names are ASCII, so that is also their
/// lowercase form), and `from_slug` finds the theme again from it.
pub proof fn lemma_name_lowercase_is_slug(t: ThemeId)
    ensures
        ascii_lower(name_text(t)) == slug_text(t),
        all_ascii(name_text(t)),
        theme_of_slug(slug_text(t)) == Some(t),
{
    lemma_slug_round_trip(t, t);
    reveal_strlit("gotyme");
    reveal_strlit("midnight");
    reveal_strlit("forest");
    reveal_strlit("solar");
    reveal_strlit("mono");
    reveal_strlit("GoTyme");
    reveal_strlit("Midnight");
    reveal_strlit("Forest");
    reveal_strlit("Solar");
    reveal_strlit("Mono");
    match t {
        ThemeId::Gotyme => assert(ascii_lower("GoTyme"@) =~= "gotyme"@),
        ThemeId::Midnight => assert(ascii_lower("Midnight"@) =~= "midnight"@),
        ThemeId::Forest => assert(ascii_lower("Forest"@) =~= "forest"@),
        ThemeId::Solar => assert(ascii_lower("Solar"@) =~= "solar"@),
        ThemeId::Mono => assert(ascii_lower("Mono"@) =~= "mono"@),
    }
}

} // verus!
