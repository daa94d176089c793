use r_tvui::config::app::{AppConfig, Color, Preview, Sort, Themes};
use r_tvui::config::utils::{config_path_from_home, get_config_path};

#[test]
fn defaults_match_design() {
    let config = AppConfig::default();
    assert_eq!(config.theme, Themes::Forest);
    assert_eq!(config.settings.sort, Sort::Name);
    assert_eq!(config.settings.preview, Preview::OnMove);
    assert!(config.settings.enable_trash);
    assert!(!config.settings.show_hidden);
    assert!(config.cache.bookmarks.is_empty());
}

#[test]
fn enum_defaults() {
    assert_eq!(Themes::default(), Themes::Forest);
    assert_eq!(Sort::default(), Sort::Name);
    assert_eq!(Preview::default(), Preview::OnMove);
}

#[test]
fn each_theme_has_a_distinct_highlight() {
    assert_eq!(Themes::Forest.palette().highlight, Color::Green);
    assert_eq!(Themes::Midnight.palette().highlight, Color::Cyan);
    assert_eq!(Themes::Solar.palette().highlight, Color::Yellow);
    assert_eq!(Themes::Mono.palette().highlight, Color::White);
}

#[test]
fn palette_fields_are_populated() {
    for theme in [Themes::Forest, Themes::Midnight, Themes::Solar, Themes::Mono] {
        let palette = theme.palette();
        assert!(matches!(palette.background, Color::Rgb(_, _, _)));
        assert!(matches!(palette.text, Color::Rgb(_, _, _)));
    }
}

#[test]
fn config_path_points_at_dotfile() {
    let path = get_config_path();
    assert!(path.ends_with(".config.toml"));
}

#[test]
fn config_path_follows_home() {
    assert_eq!(config_path_from_home(Some("/home/u".to_string())), "/home/u/.r_tvui/.config.toml");
    assert_eq!(config_path_from_home(None), ".config.toml");
}

#[test]
fn config_clone_keeps_every_field() {
    let mut config = AppConfig::default();
    config.theme = Themes::Solar;
    config.settings.sort = Sort::Size;
    config.cache.bookmarks = vec!["/tmp".to_string(), "/home".to_string()];
    assert_eq!(config.clone(), config);
}
