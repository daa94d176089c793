use r_tvui::artifact::{Artifact, ArtifactListResult, ArtifactType};
use r_tvui::config::app::AppConfig;
use r_tvui::models::app::{App, AppState};
use r_tvui::models::mode::{AppMode, InputKind};
use r_tvui::ui::{display_artifact_name, get_key_hints, help_text, status_bar_text, PreviewWindowStates};

fn artifact(name: &str, kind: ArtifactType) -> Artifact {
    Artifact { name: name.to_string(), path: format!("/d/{name}"), artifact_type: kind, size: 1, modified: None }
}

#[test]
fn directories_show_a_trailing_slash() {
    assert_eq!(display_artifact_name(&artifact("subdir", ArtifactType::Directory)), "subdir/");
    assert_eq!(display_artifact_name(&artifact("a.txt", ArtifactType::File)), "a.txt");
    assert_eq!(display_artifact_name(&artifact("l", ArtifactType::Symlink)), "l");
}

#[test]
fn status_bar_shows_prompts_and_messages() {
    let mut app = App::new("/nonexistent/rtvui/ui".to_string(), AppConfig::default(), Ok(ArtifactListResult::default()));
    assert_eq!(status_bar_text(&app), " w/s ↑↓ · a/d ⇆ · d enter· q quit ");
    app.status_message = "Renamed to b.txt".to_string();
    assert_eq!(status_bar_text(&app), " Renamed to b.txt ·  w/s ↑↓ · a/d ⇆ · d enter· q quit  ");
    app.state = AppState::Rename;
    app.rename_input = "a.txt".to_string();
    assert!(status_bar_text(&app).contains("rename: a.txt"));
    app.state = AppState::GoTo;
    app.goto_input = "/tmp".to_string();
    let text = status_bar_text(&app);
    assert!(text.contains("go to"));
    assert!(text.contains("/tmp"));
}

#[test]
fn help_lists_keys_and_bookmarks() {
    let plain = help_text(&vec![]);
    assert!(plain.starts_with("Navigation\n"));
    assert!(plain.ends_with("quit (Esc clears filter first)"));
    let with = help_text(&vec!["/tmp".to_string(), "/home".to_string()]);
    assert!(with.ends_with("\n\nBookmarks\n  1  /tmp\n  2  /home"));
    assert_eq!(get_key_hints(), "? help · / filter · Esc quit · q quit · y copy · d del");
}

#[test]
fn modes_and_window_states() {
    assert!(AppMode::Input(InputKind::Filter).is_input());
    assert!(!AppMode::Normal.is_input());
    assert!(!AppMode::ConfirmDelete.is_input());
    assert_ne!(PreviewWindowStates::View, PreviewWindowStates::Edit);
}
