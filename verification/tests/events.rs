use r_tvui::artifact::{Artifact, ArtifactListResult, ArtifactType};
use r_tvui::config::app::{AppConfig, Preview, Sort, Themes};
use r_tvui::events::input::{KeyCode, KeyEvent};
use r_tvui::events::key::{handle_key_event_confirm_mode, handle_key_event_go_to_mode, handle_key_event_help_mode};
use r_tvui::events::keys::{
    dispatch_key, handle_key_events_confirm_mode, handle_key_events_filter_mode, handle_key_events_go_to_mode,
    handle_key_events_help_mode, handle_key_events_normal_mode, handle_key_events_rename_mode,
};
use r_tvui::events::utils::handle_key_event_enter_mode;
use r_tvui::listing::collect_artifact_entries;
use r_tvui::models::app::{App, AppRequest, AppState};

const ROOT: &str = "/nonexistent/rtvui/keys";

fn entry(dir: &str, name: &str, kind: ArtifactType, size: u64) -> Artifact {
    Artifact { name: name.to_string(), path: format!("{dir}/{name}"), artifact_type: kind, size, modified: None }
}

fn listing(dir: &str, items: &[(&str, ArtifactType)]) -> ArtifactListResult {
    let entries: Vec<Result<Artifact, std::io::Error>> =
        items.iter().map(|(n, k)| Ok(entry(dir, n, *k, 1))).collect();
    match collect_artifact_entries(entries, &App::get_artifact_options(&AppConfig::default())) {
        Ok(l) => l,
        Err(_) => panic!("listing failed"),
    }
}

fn app_with_files(files: &[&str]) -> App {
    let items: Vec<(&str, ArtifactType)> = files.iter().map(|n| (*n, ArtifactType::File)).collect();
    let mut app = App::new(ROOT.to_string(), AppConfig::default(), Ok(listing(ROOT, &items)));
    app.reload_with(Ok(listing(ROOT, &items)));
    app
}

fn ch(c: char) -> KeyEvent {
    KeyEvent::new(KeyCode::Char(c))
}

fn code(code: KeyCode) -> KeyEvent {
    KeyEvent::new(code)
}

#[test]
fn scroll_down_advances_and_clamps() {
    let mut app = app_with_files(&["a.txt", "b.txt", "c.txt"]);
    assert_eq!(app.scroll_state(), Some(0));
    handle_key_events_normal_mode(&mut app, ch('s'));
    assert_eq!(app.scroll_state(), Some(1));
    handle_key_events_normal_mode(&mut app, ch('s'));
    assert_eq!(app.scroll_state(), Some(2));
    handle_key_events_normal_mode(&mut app, ch('s'));
    assert_eq!(app.scroll_state(), Some(2));
}

#[test]
fn scroll_up_retreats_and_clamps() {
    let mut app = app_with_files(&["a.txt", "b.txt"]);
    *app.scroll_state_mut() = Some(1);
    handle_key_events_normal_mode(&mut app, ch('w'));
    assert_eq!(app.scroll_state(), Some(0));
    handle_key_events_normal_mode(&mut app, ch('w'));
    assert_eq!(app.scroll_state(), Some(0));
}

fn app_with_subdir() -> App {
    let items = [("sub", ArtifactType::Directory)];
    let mut app = App::new(ROOT.to_string(), AppConfig::default(), Ok(listing(ROOT, &items)));
    app.reload_with(Ok(listing(ROOT, &items)));
    app
}

#[test]
fn d_enters_directory_and_a_leaves_it() {
    let mut app = app_with_subdir();
    handle_key_events_normal_mode(&mut app, ch('d'));
    assert!(app.current_working_directory().ends_with("sub"));
    handle_key_events_normal_mode(&mut app, ch('a'));
    assert!(!app.current_working_directory().ends_with("sub"));
    assert_eq!(app.current_working_directory(), ROOT);
}

#[test]
fn enter_on_directory_navigates_in() {
    let mut app = app_with_subdir();
    handle_key_events_normal_mode(&mut app, code(KeyCode::Enter));
    assert!(app.current_working_directory().ends_with("sub"));
}

#[test]
fn home_key_walks_toward_root() {
    let mut app = app_with_files(&["a.txt"]);
    handle_key_events_normal_mode(&mut app, ch('h'));
    assert!(std::path::Path::new(app.current_working_directory()).components().count() <= 1);
}

#[test]
fn capital_g_jumps_to_home() {
    let mut app = app_with_files(&["a.txt"]);
    handle_key_events_normal_mode(&mut app, ch('G'));
    if app.status_message != "Home directory unavailable" {
        assert_ne!(app.current_working_directory(), ROOT);
        assert!(app.current_working_directory().starts_with('/'));
        assert!(matches!(app.requests.last(), Some(AppRequest::List { path, .. }) if path == app.current_working_directory()));
    }
}

#[test]
fn history_keys_navigate() {
    let mut app = app_with_files(&["a.txt"]);
    app.tabs[0].current_working_directory = "/nonexistent/rtvui/second".to_string();
    app.record_history();
    handle_key_events_normal_mode(&mut app, ch('u'));
    assert_eq!(app.current_working_directory(), ROOT);
    handle_key_events_normal_mode(&mut app, ch('i'));
    assert_eq!(app.current_working_directory(), "/nonexistent/rtvui/second");
}

#[test]
fn normal_mode_enters_sub_modes() {
    let mut app = app_with_files(&["a.txt"]);
    assert_eq!(handle_key_events_normal_mode(&mut app, ch('/')), AppState::Filter);
    assert_eq!(handle_key_events_normal_mode(&mut app, ch('g')), AppState::GoTo);
    assert_eq!(handle_key_events_normal_mode(&mut app, ch('?')), AppState::Help);
    assert_eq!(handle_key_events_normal_mode(&mut app, code(KeyCode::F(2))), AppState::Rename);
}

#[test]
fn normal_mode_quits_on_q_and_esc() {
    let mut app = app_with_files(&["a.txt"]);
    assert_eq!(handle_key_events_normal_mode(&mut app, ch('q')), AppState::Quit);
    assert_eq!(handle_key_events_normal_mode(&mut app, code(KeyCode::Esc)), AppState::Quit);
}

#[test]
fn filter_mode_types_narrows_and_clears() {
    let mut app = app_with_files(&["alpha.txt", "beta.txt"]);
    assert_eq!(handle_key_events_normal_mode(&mut app, ch('/')), AppState::Filter);
    for c in "alp".chars() {
        assert_eq!(handle_key_events_filter_mode(&mut app, ch(c)), AppState::Filter);
    }
    assert_eq!(app.filter_input(), "alp");
    assert_eq!(app.entries_filtered().len(), 1);
    assert_eq!(app.entries_filtered()[0].name, "alpha.txt");

    handle_key_events_filter_mode(&mut app, code(KeyCode::Backspace));
    assert_eq!(app.filter_input(), "al");

    handle_key_events_filter_mode(&mut app, ch('q'));
    assert_eq!(app.filter_input(), "alq");

    let state = handle_key_events_filter_mode(&mut app, code(KeyCode::Esc));
    assert_eq!(state, AppState::Active);
    assert_eq!(app.filter_input(), "");
    assert_eq!(app.entries_filtered().len(), app.entries_cache().len());
}

#[test]
fn rename_mode_edits_buffer_and_cancels() {
    let mut app = app_with_files(&["file.txt"]);
    assert_eq!(handle_key_events_normal_mode(&mut app, code(KeyCode::F(2))), AppState::Rename);
    assert_eq!(app.rename_input, "file.txt");
    assert_eq!(handle_key_events_rename_mode(&mut app, ch('X')), AppState::Rename);
    assert_eq!(app.rename_input, "file.txtX");
    handle_key_events_rename_mode(&mut app, code(KeyCode::Backspace));
    assert_eq!(app.rename_input, "file.txt");
    let state = handle_key_events_rename_mode(&mut app, code(KeyCode::Esc));
    assert_eq!(state, AppState::Active);
}

#[test]
fn dispatch_key_routes_by_state() {
    let mut app = app_with_files(&["a.txt"]);

    app.state = AppState::Active;
    dispatch_key(&mut app, ch('/'));
    assert_eq!(app.state, AppState::Filter);

    dispatch_key(&mut app, code(KeyCode::Esc));
    assert_eq!(app.state, AppState::Active);

    app.state = AppState::Rename;
    dispatch_key(&mut app, code(KeyCode::Esc));
    assert_eq!(app.state, AppState::Active);

    app.state = AppState::GoTo;
    dispatch_key(&mut app, code(KeyCode::Esc));
    assert_eq!(app.state, AppState::Active);

    app.state = AppState::Confirm;
    dispatch_key(&mut app, code(KeyCode::Esc));
    assert_eq!(app.state, AppState::Active);

    app.state = AppState::Help;
    dispatch_key(&mut app, code(KeyCode::Esc));
    assert_eq!(app.state, AppState::Active);

    app.state = AppState::Help;
    dispatch_key(&mut app, ch('q'));
    assert_eq!(app.state, AppState::Active);

    app.state = AppState::Quit;
    dispatch_key(&mut app, ch('x'));
    assert_eq!(app.state, AppState::Quit);
}

#[test]
fn mode_dispatchers_exit_or_delegate() {
    let mut app = app_with_files(&["a.txt"]);
    assert_eq!(handle_key_events_go_to_mode(&mut app, code(KeyCode::Esc)), AppState::Active);
    assert_eq!(handle_key_events_confirm_mode(&mut app, ch('q')), AppState::Active);
    assert_eq!(handle_key_events_help_mode(&mut app, code(KeyCode::Esc)), AppState::Active);

    assert_eq!(handle_key_events_go_to_mode(&mut app, ch('x')), AppState::GoTo);
    assert_eq!(app.goto_input, "x");
    assert_eq!(handle_key_events_confirm_mode(&mut app, ch('x')), AppState::Confirm);
    assert_eq!(handle_key_events_help_mode(&mut app, ch('x')), AppState::Help);
}

#[test]
fn inner_mode_handlers_cover_all_arms() {
    let mut app = app_with_files(&["a.txt"]);
    assert_eq!(handle_key_event_go_to_mode(&mut app, ch('q')), AppState::GoTo);
    assert_eq!(app.goto_input, "q");
    assert_eq!(handle_key_event_go_to_mode(&mut app, ch('x')), AppState::GoTo);
    assert_eq!(app.goto_input, "qx");
    assert_eq!(handle_key_event_confirm_mode(&mut app, ch('x')), AppState::Confirm);
    assert_eq!(handle_key_event_confirm_mode(&mut app, ch('x')), AppState::Confirm);
    assert_eq!(handle_key_event_help_mode(&mut app, code(KeyCode::Esc)), AppState::Help);
    assert_eq!(handle_key_event_help_mode(&mut app, ch('x')), AppState::Help);
}

#[test]
fn goto_mode_types_jumps_and_rejects() {
    let mut app = app_with_files(&["a.txt"]);
    assert_eq!(handle_key_events_normal_mode(&mut app, ch('g')), AppState::GoTo);
    assert!(app.goto_input.is_empty());
    for c in "/".chars() {
        assert_eq!(handle_key_events_go_to_mode(&mut app, ch(c)), AppState::GoTo);
    }
    assert_eq!(handle_key_events_go_to_mode(&mut app, code(KeyCode::Enter)), AppState::Active);
    assert_eq!(app.current_working_directory(), "/");

    assert_eq!(handle_key_events_normal_mode(&mut app, ch('g')), AppState::GoTo);
    for c in "/no/such/rtvui/path".chars() {
        handle_key_events_go_to_mode(&mut app, ch(c));
    }
    assert_eq!(handle_key_events_go_to_mode(&mut app, code(KeyCode::Enter)), AppState::GoTo);
    assert!(app.status_message.contains("not found"));

    assert_eq!(handle_key_events_go_to_mode(&mut app, code(KeyCode::Esc)), AppState::Active);
    assert!(app.goto_input.is_empty());
}

#[test]
fn confirm_delete_mode_yes_and_cancel() {
    let mut app = app_with_files(&["doomed.txt", "keep.txt"]);
    app.config.settings.enable_trash = false;
    let index = app.entries_filtered().iter().position(|a| a.name == "doomed.txt").unwrap();
    *app.scroll_state_mut() = Some(index);

    assert_eq!(handle_key_events_normal_mode(&mut app, ch('x')), AppState::Confirm);
    let before = app.requests.len();
    assert_eq!(handle_key_events_confirm_mode(&mut app, ch('n')), AppState::Active);
    assert_eq!(app.requests.len(), before);

    assert_eq!(handle_key_events_normal_mode(&mut app, code(KeyCode::Delete)), AppState::Confirm);
    assert_eq!(handle_key_events_confirm_mode(&mut app, ch('y')), AppState::Active);
    match app.requests.last() {
        Some(AppRequest::Delete { targets, use_trash }) => {
            assert!(!use_trash);
            assert_eq!(targets, &vec![(format!("{ROOT}/doomed.txt"), false)]);
        },
        _ => panic!("expected a delete request"),
    }
    app.finish_delete(false, &vec![true]);
    assert!(app.status_message.contains("Deleted"));
}

#[test]
fn copy_path_key_sets_status() {
    let mut app = app_with_files(&["a.txt"]);
    assert_eq!(handle_key_events_normal_mode(&mut app, ch('y')), AppState::Active);
    match app.requests.last() {
        Some(AppRequest::Clipboard { text }) => {
            let text = text.clone();
            app.finish_copy_path(&text, Ok(()));
        },
        _ => panic!("expected a clipboard request"),
    }
    assert!(app.status_message.contains("Copied") || app.status_message.starts_with("Copy failed"));
}

#[test]
fn bookmark_keys_save_and_jump() {
    let mut app = App::new("/".to_string(), AppConfig::default(), Ok(ArtifactListResult::default()));
    assert_eq!(handle_key_events_normal_mode(&mut app, ch('b')), AppState::Active);
    assert_eq!(app.config.cache.bookmarks.len(), 1);
    assert!(matches!(app.requests.last(), Some(AppRequest::SaveConfig { .. })));

    app.tabs[0].current_working_directory = "/nonexistent/rtvui/second".to_string();
    handle_key_events_normal_mode(&mut app, ch('b'));

    assert_eq!(handle_key_events_normal_mode(&mut app, ch('1')), AppState::Active);
    assert_eq!(app.current_working_directory(), "/");
}

#[test]
fn option_keys_update_config_and_persist() {
    let mut app = app_with_files(&["a.txt"]);
    let theme_before = app.config.theme;
    handle_key_events_normal_mode(&mut app, ch('t'));
    assert_ne!(app.config.theme, theme_before);
    assert!(matches!(app.requests.last(), Some(AppRequest::SaveConfig { config }) if config.theme == Themes::Midnight));

    let sort_before = app.config.settings.sort;
    handle_key_events_normal_mode(&mut app, ch('o'));
    assert_ne!(app.config.settings.sort, sort_before);
    assert_eq!(app.config.settings.sort, Sort::Size);

    let hidden_before = app.config.settings.show_hidden;
    handle_key_events_normal_mode(&mut app, ch('.'));
    assert_ne!(app.config.settings.show_hidden, hidden_before);

    handle_key_events_normal_mode(&mut app, ch('P'));
    assert_eq!(app.config.settings.preview, Preview::Always);

    handle_key_events_normal_mode(&mut app, ch('r'));
    handle_key_events_normal_mode(&mut app, ch('h'));
}

#[test]
fn enter_mode_is_noop_without_a_valid_selection() {
    let mut app = app_with_files(&["a.txt"]);
    let before = app.requests.len();
    *app.scroll_state_mut() = None;
    handle_key_event_enter_mode(&mut app);
    *app.scroll_state_mut() = Some(99);
    handle_key_event_enter_mode(&mut app);
    assert_eq!(app.requests.len(), before);
    *app.scroll_state_mut() = Some(0);
    handle_key_event_enter_mode(&mut app);
    assert_eq!(app.status_message, "Opening a.txt");
    assert!(matches!(app.requests.last(), Some(AppRequest::OpenFile { path }) if path == &format!("{ROOT}/a.txt")));
}

#[test]
fn rename_mode_enter_commits() {
    let mut app = app_with_files(&["old.txt"]);
    handle_key_events_normal_mode(&mut app, code(KeyCode::F(2)));
    app.rename_input = "new.txt".to_string();
    let state = handle_key_events_rename_mode(&mut app, code(KeyCode::Enter));
    assert_eq!(state, AppState::Active);
    assert!(matches!(app.requests.last(), Some(AppRequest::Rename { new_name, .. }) if new_name == "new.txt"));
}

#[test]
fn rename_mode_ignores_unhandled_keys() {
    let mut app = app_with_files(&["a.txt"]);
    handle_key_events_normal_mode(&mut app, code(KeyCode::F(2)));
    let before = app.rename_input.clone();
    let state = handle_key_events_rename_mode(&mut app, code(KeyCode::Left));
    assert_eq!(state, AppState::Rename);
    assert_eq!(app.rename_input, before);
}

#[test]
fn scroll_and_navigate_are_safe_without_selection() {
    let mut app = app_with_files(&["a.txt"]);
    *app.scroll_state_mut() = None;
    handle_key_events_normal_mode(&mut app, ch('w'));
    handle_key_events_normal_mode(&mut app, ch('s'));
    handle_key_events_normal_mode(&mut app, ch('d'));
    assert_eq!(app.scroll_state(), None);
}

#[test]
fn forward_on_file_or_out_of_range_is_noop() {
    let mut app = app_with_files(&["a.txt"]);
    let cwd = app.current_working_directory().clone();
    handle_key_events_normal_mode(&mut app, ch('d'));
    assert_eq!(app.current_working_directory(), &cwd);
    *app.scroll_state_mut() = Some(99);
    handle_key_events_normal_mode(&mut app, ch('d'));
    assert_eq!(app.current_working_directory(), &cwd);
}

#[test]
fn tab_and_split_keys() {
    let mut app = app_with_files(&["a.txt"]);
    handle_key_events_normal_mode(&mut app, ch('N'));
    assert_eq!(app.tabs.len(), 2);
    handle_key_events_normal_mode(&mut app, ch(']'));
    assert_eq!(app.active_tab, 0);
    handle_key_events_normal_mode(&mut app, ch('['));
    assert_eq!(app.active_tab, 1);
    handle_key_events_normal_mode(&mut app, ch('\\'));
    assert_eq!(app.split_tab, Some(0));
    handle_key_events_normal_mode(&mut app, code(KeyCode::Tab));
    assert_eq!(app.active_tab, 0);
    handle_key_events_normal_mode(&mut app, ch('W'));
    assert_eq!(app.tabs.len(), 1);
    assert_eq!(app.split_tab, None);
    handle_key_events_normal_mode(&mut app, ch(' '));
    assert_eq!(app.status_message, "Marked: 1");
    handle_key_events_normal_mode(&mut app, ch('U'));
    assert_eq!(app.status_message, "Marks cleared");
    handle_key_events_normal_mode(&mut app, ch('c'));
    assert_eq!(app.status_message, "Split required for pane copy (\\)");
    handle_key_events_normal_mode(&mut app, ch('m'));
    assert_eq!(app.status_message, "Split required for pane move (\\)");
    handle_key_events_normal_mode(&mut app, ch('e'));
    assert_eq!(app.pending_editor, Some(format!("{ROOT}/a.txt")));
}

#[test]
fn test_app_starts_running() {
    let app = app_with_files(&["a.txt"]);
    assert_eq!(app.state, AppState::Active);
}

#[test]
fn test_handle_key_event_quit() {
    let mut app = app_with_files(&["a.txt"]);
    dispatch_key(&mut app, ch('q'));
    assert_eq!(app.state, AppState::Quit);
}

#[test]
fn test_esc_quits_when_no_subquery() {
    let mut app = app_with_files(&["a.txt"]);
    dispatch_key(&mut app, code(KeyCode::Esc));
    assert_eq!(app.state, AppState::Quit);
}

#[test]
fn test_esc_clears_filter_before_quit() {
    let mut app = app_with_files(&["foo.txt", "bar.txt"]);
    dispatch_key(&mut app, ch('/'));
    for c in "foo".chars() {
        dispatch_key(&mut app, ch(c));
    }
    assert_eq!(app.entries_filtered().len(), 1);
    dispatch_key(&mut app, code(KeyCode::Esc));
    assert_eq!(app.state, AppState::Active);
    assert!(app.filter_input().is_empty());
    assert_eq!(app.entries_filtered().len(), 2);
}

#[test]
fn test_toggle_hidden() {
    let mut app = app_with_files(&["a.txt"]);
    let before = app.config.settings.show_hidden;
    dispatch_key(&mut app, ch('.'));
    assert_ne!(app.config.settings.show_hidden, before);
}

#[test]
fn test_cycle_theme() {
    let start = r_tvui::theme::ThemeId::default();
    assert_eq!(start.next(), r_tvui::theme::ThemeId::Midnight);
    let mut app = app_with_files(&["a.txt"]);
    let before = app.config.theme;
    dispatch_key(&mut app, ch('t'));
    assert_ne!(app.config.theme, before);
}

#[test]
fn test_refresh_listing_keeps_valid_selection() {
    let mut app = app_with_files(&["a.txt", "b.txt"]);
    *app.scroll_state_mut() = Some(0);
    dispatch_key(&mut app, ch('r'));
    let len = app.entries_filtered().len();
    assert!(app.scroll_state().unwrap_or(0) < len.max(1));
}
