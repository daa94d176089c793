//! Configuration values and their defaults.

use vstd::prelude::*;

verus! {

/// The saved configuration: theme, listing settings and bookmarks.
#[derive(Debug, PartialEq)]
pub struct AppConfig {
    pub theme: Themes,
    pub settings: Settings,
    pub cache: CacheConfig,
}

/// Listing and preview settings.
#[derive(Debug, Clone, Copy, PartialEq, Eq, Structural)]
pub struct Settings {
    pub sort: Sort,
    pub enable_trash: bool,
    pub preview: Preview,
    pub show_hidden: bool,
}

/// Remembered state: the bookmarked directories, in slot order.
#[derive(Debug, PartialEq)]
pub struct CacheConfig {
    pub bookmarks: Vec<String>,
}

impl Clone for CacheConfig {
    fn clone(&self) -> (r: Self)
        ensures
            r.bookmarks@ == self.bookmarks@,
    {
        CacheConfig { bookmarks: clone_strings(&self.bookmarks) }
    }
}

impl Clone for AppConfig {
    fn clone(&self) -> (r: Self)
        ensures
            r.theme == self.theme,
            r.settings == self.settings,
            r.cache.bookmarks@ == self.cache.bookmarks@,
    {
        AppConfig { theme: self.theme, settings: self.settings, cache: self.cache.clone() }
    }
}

/// A copy of a list of strings.
pub fn clone_strings(v: &Vec<String>) -> (r: Vec<String>)
    ensures
        r@ == v@,
{
    let mut r: Vec<String> = Vec::new();
    let mut i: usize = 0;
    while i < v.len()
        invariant
            i <= v.len(),
            r@ =~= v@.subrange(0, i as int),
        decreases v.len() - i,
    {
        r.push(v[i].clone());
        i = i + 1;
    }
    assert(r@ =~= v@);
    r
}

/// The default settings: by name, trash on, preview on move, hidden off.
pub open spec fn default_settings() -> Settings {
    Settings { sort: Sort::Name, enable_trash: true, preview: Preview::OnMove, show_hidden: false }
}

impl Default for AppConfig {
    fn default() -> (r: Self)
        ensures
            r.theme == Themes::Forest,
            r.settings == default_settings(),
            r.cache.bookmarks@.len() == 0,
    {
        AppConfig {
            theme: Themes::Forest,
            cache: CacheConfig { bookmarks: Vec::new() },
            settings: Settings::default(),
        }
    }
}

impl Default for Settings {
    fn default() -> (r: Self)
        ensures
            r == default_settings(),
    {
        Settings { sort: Sort::Name, enable_trash: true, preview: Preview::OnMove, show_hidden: false }
    }
}

/// The colour themes.
#[derive(Debug, Clone, Copy, PartialEq, Eq, Structural)]
pub enum Themes {
    Forest,
    Midnight,
    Solar,
    Mono,
}

impl Default for Themes {
    fn default() -> (r: Self)
        ensures
            r == Themes::Forest,
    {
        Themes::Forest
    }
}

/// A terminal colour: a named palette colour or an RGB triple.
#[derive(Debug, Clone, Copy, PartialEq, Eq, Structural)]
pub enum Color {
    Green,
    LightGreen,
    Cyan,
    LightCyan,
    Blue,
    Yellow,
    LightYellow,
    LightRed,
    White,
    Gray,
    Rgb(u8, u8, u8),
}

/// The colours a theme draws with.
#[derive(Debug, Clone, Copy, PartialEq, Eq, Structural)]
pub struct Palette {
    pub highlight: Color,
    pub accent: Color,
    pub header: Color,
    pub background: Color,
    pub text: Color,
}

/// The palette of each theme.
pub open spec fn theme_palette(theme: Themes) -> Palette {
    match theme {
        Themes::Forest => Palette {
            highlight: Color::Green,
            accent: Color::LightGreen,
            header: Color::Green,
            background: Color::Rgb(12, 20, 12),
            text: Color::Rgb(200, 220, 200),
        },
        Themes::Midnight => Palette {
            highlight: Color::Cyan,
            accent: Color::LightCyan,
            header: Color::Blue,
            background: Color::Rgb(10, 12, 24),
            text: Color::Rgb(200, 210, 235),
        },
        Themes::Solar => Palette {
            highlight: Color::Yellow,
            accent: Color::LightYellow,
            header: Color::LightRed,
            background: Color::Rgb(28, 24, 10),
            text: Color::Rgb(230, 220, 180),
        },
        Themes::Mono => Palette {
            highlight: Color::White,
            accent: Color::Gray,
            header: Color::White,
            background: Color::Rgb(16, 16, 16),
            text: Color::Rgb(210, 210, 210),
        },
    }
}

impl Themes {
    /// The theme's colours.
    pub fn palette(&self) -> (r: Palette)
        ensures
            r == theme_palette(*self),
    {
        match self {
            Themes::Forest => Palette {
                highlight: Color::Green,
                accent: Color::LightGreen,
                header: Color::Green,
                background: Color::Rgb(12, 20, 12),
                text: Color::Rgb(200, 220, 200),
            },
            Themes::Midnight => Palette {
                highlight: Color::Cyan,
                accent: Color::LightCyan,
                header: Color::Blue,
                background: Color::Rgb(10, 12, 24),
                text: Color::Rgb(200, 210, 235),
            },
            Themes::Solar => Palette {
                highlight: Color::Yellow,
                accent: Color::LightYellow,
                header: Color::LightRed,
                background: Color::Rgb(28, 24, 10),
                text: Color::Rgb(230, 220, 180),
            },
            Themes::Mono => Palette {
                highlight: Color::White,
                accent: Color::Gray,
                header: Color::White,
                background: Color::Rgb(16, 16, 16),
                text: Color::Rgb(210, 210, 210),
            },
        }
    }
}

/// The secondary listing order the user picked.
#[derive(Debug, Clone, Copy, PartialEq, Eq, Structural)]
pub enum Sort {
    Name,
    Size,
    Modified,
}

impl Default for Sort {
    fn default() -> (r: Self)
        ensures
            r == Sort::Name,
    {
        Sort::Name
    }
}

/// When the side pane previews the selection.
#[derive(Debug, Clone, Copy, PartialEq, Eq, Structural)]
pub enum Preview {
    OnMove,
    Always,
    Never,
}

impl Default for Preview {
    fn default() -> (r: Self)
        ensures
            r == Preview::OnMove,
    {
        Preview::OnMove
    }
}

} // verus!
