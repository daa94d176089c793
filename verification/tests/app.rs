use r_tvui::artifact::{Artifact, ArtifactListResult, ArtifactSort, ArtifactType};
use r_tvui::config::app::{AppConfig, Preview, Sort, Themes};
use r_tvui::errors::{FileSystemErrors, RTVUIError};
use r_tvui::listing::collect_artifact_entries;
use r_tvui::models::app::{App, AppRequest, AppState};
use r_tvui::models::client::AsyncEvents;
use r_tvui::models::previewer::{FolderPreviewer, PreviewPreviewer, Previewer};

const ROOT: &str = "/nonexistent/rtvui/work";

fn entry(name: &str, kind: ArtifactType, size: u64) -> Artifact {
    Artifact { name: name.to_string(), path: format!("{ROOT}/{name}"), artifact_type: kind, size, modified: None }
}

fn artifact(name: &str) -> Artifact {
    Artifact {
        name: name.to_string(),
        path: format!("/tmp/{name}"),
        artifact_type: ArtifactType::File,
        size: 1,
        modified: None,
    }
}

/// The listing the explorer's default options give for files with these
/// names and contents.
fn listing_of(files: &[(&str, &str)]) -> ArtifactListResult {
    let entries: Vec<Result<Artifact, std::io::Error>> = files
        .iter()
        .map(|(name, content)| Ok(entry(name, ArtifactType::File, content.len() as u64)))
        .collect();
    match collect_artifact_entries(entries, &App::get_artifact_options(&AppConfig::default())) {
        Ok(l) => l,
        Err(_) => panic!("listing failed"),
    }
}

/// An explorer on a directory holding `files`, listed.
fn app_with_files(files: &[(&str, &str)]) -> App {
    let mut app = App::new(ROOT.to_string(), AppConfig::default(), Ok(listing_of(files)));
    app.reload_with(Ok(listing_of(files)));
    app
}

#[test]
fn app_test_app_new() {
    let app = App::new(".".to_string(), AppConfig::default(), Ok(listing_of(&[("Cargo.toml", "x")])));
    assert!(!app.pane().entries_cache.is_empty());
    assert_eq!(app.scroll_state(), Some(0));
    assert_eq!(app.status_message, "");
    assert_eq!(app.state, AppState::Active);
    assert_eq!(app.filter_input(), "");
    assert_eq!(app.pane().entries_filtered, app.pane().entries_cache);
    assert_eq!(app.config, AppConfig::default());
    assert!(matches!(app.requests[0], AppRequest::List { generation: 1, .. }));
}

#[test]
fn new_empty_directory_has_no_selection() {
    let app = App::new(ROOT.to_string(), AppConfig::default(), Ok(ArtifactListResult::default()));
    assert!(app.entries_cache().is_empty());
    assert_eq!(app.scroll_state(), None);
}

#[test]
fn get_artifact_options_maps_config() {
    let mut config = AppConfig::default();
    config.settings.sort = Sort::Size;
    config.settings.show_hidden = true;
    let options = App::get_artifact_options(&config);
    assert!(options.show_hidden);
    assert_eq!(options.sort, ArtifactSort::Size);

    config.settings.sort = Sort::Modified;
    config.settings.show_hidden = false;
    let options = App::get_artifact_options(&config);
    assert!(!options.show_hidden);
    assert_eq!(options.sort, ArtifactSort::Modified);
}

#[test]
fn reload_lists_visible_files() {
    let app = app_with_files(&[("test.txt", "test"), (".hidden.txt", "hidden")]);
    let shown = app.entries_cache();
    assert_eq!(shown.len(), 1);
    assert_eq!(shown[0].name, "test.txt");
    assert_eq!(shown[0].path, format!("{ROOT}/test.txt"));
    assert_eq!(shown[0].artifact_type, ArtifactType::File);
    assert_eq!(shown[0].size, 4);
}

#[test]
fn reload_clamps_stale_selection() {
    let mut app = app_with_files(&[("a.txt", "a"), ("b.txt", "b"), ("c.txt", "c")]);
    *app.scroll_state_mut() = Some(2);
    app.reload_with(Ok(listing_of(&[("a.txt", "a")])));
    assert_eq!(app.entries_cache().len(), 1);
    assert_eq!(app.scroll_state(), Some(0));
}

#[test]
fn reload_empty_directory_clears_selection() {
    let mut app = app_with_files(&[("only.txt", "x")]);
    assert_eq!(app.scroll_state(), Some(0));
    app.reload_with(Ok(listing_of(&[])));
    assert!(app.entries_cache().is_empty());
    assert_eq!(app.scroll_state(), None);
}

#[test]
fn filter_matches_substring() {
    let mut app = app_with_files(&[("alpha.txt", "a"), ("beta.rs", "b")]);
    *app.filter_input_mut() = "alpha".to_string();
    app.filter();
    assert_eq!(app.entries_filtered().len(), 1);
    assert_eq!(app.entries_filtered()[0].name, "alpha.txt");
}

#[test]
fn filter_is_case_insensitive() {
    let mut app = app_with_files(&[("README.md", "a")]);
    *app.filter_input_mut() = "readme".to_string();
    app.filter();
    assert_eq!(app.entries_filtered().len(), 1);
}

#[test]
fn filter_empty_matches_everything() {
    let mut app = app_with_files(&[("a.txt", "a"), ("b.txt", "b")]);
    *app.filter_input_mut() = String::new();
    app.filter();
    assert_eq!(app.entries_filtered().len(), app.entries_cache().len());
}

#[test]
fn filter_no_match_is_empty_and_resets_selection() {
    let mut app = app_with_files(&[("a.txt", "a")]);
    *app.filter_input_mut() = "zzz-nope".to_string();
    app.filter();
    assert!(app.entries_filtered().is_empty());
    assert_eq!(app.scroll_state(), Some(0));
    assert!(app.selected_artifact().is_none());
}

#[test]
fn selected_artifact_tracks_scroll_state() {
    let mut app = app_with_files(&[("file.txt", "a")]);
    assert_eq!(app.selected_artifact().map(|a| a.name.clone()), Some("file.txt".to_string()));
    assert!(app.is_file_artifact());
    *app.scroll_state_mut() = None;
    assert!(app.selected_artifact().is_none());
    assert!(!app.is_file_artifact());
}

#[test]
fn cycle_sort_rotates() {
    let mut app = app_with_files(&[("a.txt", "a")]);
    assert_eq!(app.config.settings.sort, Sort::Name);
    app.cycle_sort();
    assert_eq!(app.config.settings.sort, Sort::Size);
    app.cycle_sort();
    assert_eq!(app.config.settings.sort, Sort::Modified);
    app.cycle_sort();
    assert_eq!(app.config.settings.sort, Sort::Name);
}

#[test]
fn app_test_app_update_theme() {
    let mut app = app_with_files(&[("a.txt", "a")]);
    app.update_theme();
    assert_eq!(app.config.theme, Themes::Midnight);
    app.update_theme();
    assert_eq!(app.config.theme, Themes::Solar);
    app.update_theme();
    assert_eq!(app.config.theme, Themes::Mono);
    app.update_theme();
    assert_eq!(app.config.theme, Themes::Forest);
    app.update_theme();
    assert_eq!(app.config.theme, Themes::Midnight);
}

#[test]
fn refresh_clears_cache() {
    let mut app = app_with_files(&[("a.txt", "a")]);
    app.cache.push(("/somewhere".to_string(), ArtifactListResult::default()));
    assert!(!app.cache.is_empty());
    app.refresh();
    assert!(app.cache.is_empty());
    assert!(matches!(app.requests.last(), Some(AppRequest::List { .. })));
}

#[test]
fn apply_browser_done_updates_state_when_generation_matches() {
    let mut app = app_with_files(&[("a.txt", "a")]);
    let target = "/tmp/rtvui-fake".to_string();
    let listing = ArtifactListResult { artifacts: vec![artifact("only.txt")], partial: false };
    let generation = app.pane().generation;
    app.apply_async_event(AsyncEvents::BrowserDone { generation, artifacts: listing, path: target.clone(), error: None });
    assert_eq!(app.current_working_directory(), &target);
    assert_eq!(app.entries_cache().len(), 1);
    assert_eq!(app.entries_cache()[0].name, "only.txt");
    assert!(app.cache.iter().any(|(p, _)| p == &target));
}

#[test]
fn apply_browser_done_ignores_stale_generation() {
    let mut app = app_with_files(&[("a.txt", "a")]);
    let before = app.entries_cache().clone();
    let stale = app.pane().generation + 99;
    app.apply_async_event(AsyncEvents::BrowserDone {
        generation: stale,
        artifacts: ArtifactListResult { artifacts: vec![artifact("ghost.txt")], partial: false },
        path: "/tmp/ghost".to_string(),
        error: None,
    });
    assert_eq!(app.entries_cache(), &before);
}

#[test]
fn apply_previewer_done_respects_generation() {
    let mut app = app_with_files(&[("a.txt", "a")]);
    let preview = Previewer::Preview(PreviewPreviewer { title: "t".to_string(), body: "hello".to_string() });
    let generation = app.pane().previewer_generation;
    app.apply_async_event(AsyncEvents::PreviewerDone { generation, previewer: preview });
    match app.previewer() {
        Previewer::Preview(p) => assert_eq!(p.body, "hello"),
        _ => panic!("expected preview to be applied"),
    }
    app.apply_async_event(AsyncEvents::PreviewerDone { generation: generation + 50, previewer: Previewer::Empty });
    assert!(matches!(app.previewer(), Previewer::Preview(_)));
}

#[test]
fn begin_rename_seeds_buffer() {
    let mut app = app_with_files(&[("file.txt", "a")]);
    assert_eq!(app.begin_rename(), AppState::Rename);
    assert_eq!(app.rename_input, "file.txt");
}

#[test]
fn begin_rename_without_selection_stays_active() {
    let mut app = app_with_files(&[("file.txt", "a")]);
    *app.scroll_state_mut() = None;
    assert_eq!(app.begin_rename(), AppState::Active);
}

#[test]
fn begin_goto_clears_buffer() {
    let mut app = app_with_files(&[("file.txt", "a")]);
    app.goto_input = "stale".to_string();
    assert_eq!(app.begin_goto(), AppState::GoTo);
    assert!(app.goto_input.is_empty());
}

#[test]
fn commit_goto_rejects_missing_and_file_paths() {
    let mut app = app_with_files(&[("file.txt", "a")]);
    app.goto_input = "/no/such/rtvui/dir".to_string();
    assert_eq!(app.commit_goto(), AppState::GoTo);
    assert!(app.status_message.contains("not found"));

    app.goto_input = "/etc/hostname".to_string();
    let state = app.commit_goto();
    if std::path::Path::new("/etc/hostname").is_file() {
        assert_eq!(state, AppState::GoTo);
        assert!(app.status_message.contains("not a directory"));
    }
}

#[test]
fn commit_goto_jumps_to_directory() {
    let mut app = app_with_files(&[("file.txt", "a")]);
    app.goto_input = "/".to_string();
    assert_eq!(app.commit_goto(), AppState::Active);
    assert_eq!(app.current_working_directory(), "/");
    assert!(app.goto_input.is_empty());
    assert!(matches!(app.requests.last(), Some(AppRequest::List { path, .. }) if path == "/"));
}

#[test]
fn commit_rename_renames_file() {
    let mut app = app_with_files(&[("old.txt", "a")]);
    app.rename_input = "new.txt".to_string();
    app.commit_rename();
    match app.requests.last() {
        Some(AppRequest::Rename { from, to, new_name }) => {
            assert_eq!(from, &format!("{ROOT}/old.txt"));
            assert_eq!(to, &format!("{ROOT}/new.txt"));
            assert_eq!(new_name, "new.txt");
        },
        _ => panic!("expected a rename request"),
    }
    app.finish_rename("new.txt".to_string(), Ok(()));
    assert_eq!(app.status_message, "Renamed to new.txt");
}

#[test]
fn commit_rename_rejects_path_separator() {
    let mut app = app_with_files(&[("old.txt", "a")]);
    let before = app.requests.len();
    app.rename_input = "nested/new.txt".to_string();
    app.commit_rename();
    assert_eq!(app.requests.len(), before);
    assert!(app.status_message.contains("separator"));
}

#[test]
fn commit_rename_noop_when_unchanged() {
    let mut app = app_with_files(&[("same.txt", "a")]);
    let before = app.requests.len();
    app.rename_input = "same.txt".to_string();
    app.commit_rename();
    assert_eq!(app.requests.len(), before);
    assert_eq!(app.status_message, "");
}

#[test]
fn commit_rename_reports_fs_error() {
    let mut app = app_with_files(&[("old.txt", "a")]);
    app.finish_rename("new.txt".to_string(), Err("No such file or directory (os error 2)".to_string()));
    assert!(app.status_message.contains("Rename failed"));
}

#[test]
fn preview_never_disables_side_pane() {
    let mut app = app_with_files(&[("file.txt", "a")]);
    app.config.settings.preview = Preview::Never;
    app.request_previewer();
    assert!(matches!(app.previewer(), Previewer::Empty));
}

#[test]
fn request_previewer_handles_files_and_folders() {
    let mut app = app_with_files(&[("file.txt", "a")]);
    app.request_previewer();
    assert!(matches!(app.requests.last(), Some(AppRequest::PreviewFile { title, .. }) if title == "file.txt"));

    let listing = ArtifactListResult { artifacts: vec![entry("sub", ArtifactType::Directory, 0)], partial: false };
    let mut dir_app = App::new(ROOT.to_string(), AppConfig::default(), Ok(listing));
    assert!(!dir_app.is_file_artifact());
    dir_app.request_previewer();
    assert!(matches!(dir_app.requests.last(), Some(AppRequest::PreviewFolder { title, .. }) if title == "sub"));
}

#[test]
fn async_reload_uses_cache_when_present() {
    let mut app = app_with_files(&[("real.txt", "a")]);
    let cwd = app.current_working_directory().clone();
    app.cache.push((cwd, ArtifactListResult { artifacts: vec![artifact("cached.txt")], partial: false }));
    app.async_reload();
    assert_eq!(app.entries_cache().len(), 1);
    assert_eq!(app.entries_cache()[0].name, "cached.txt");
}

#[test]
fn reload_error_clears_state_and_reports() {
    let mut app = app_with_files(&[("a.txt", "a")]);
    let error = RTVUIError::FileSystemError(FileSystemErrors::NotFound("/no/such/rtvui/dir".to_string()));
    app.reload_with(Err(error));
    assert!(app.entries_cache().is_empty());
    assert!(app.entries_filtered().is_empty());
    assert!(app.status_message.starts_with("Error:"));
}

#[test]
fn apply_folder_preview_respects_generation() {
    let mut app = app_with_files(&[("a.txt", "a")]);
    let generation = app.pane().previewer_generation;
    app.apply_async_event(AsyncEvents::FolderPreviewDone {
        generation,
        previewer: Previewer::Folder(FolderPreviewer { title: "folder".to_string(), artifacts: vec![artifact("inner.txt")] }),
    });
    assert!(matches!(app.previewer(), Previewer::Folder(_)));
    app.apply_async_event(AsyncEvents::FolderPreviewDone { generation: generation + 25, previewer: Previewer::Empty });
    assert!(matches!(app.previewer(), Previewer::Folder(_)));
}

#[test]
fn test_app_test_app_new() {
    let app = App::new(".".to_string(), AppConfig::default(), Ok(listing_of(&[("test.txt", "test")])));
    assert_eq!(app.status_message, "");
    assert_eq!(app.state, AppState::Active);
    assert_eq!(app.filter_input(), "");
    assert_eq!(app.scroll_state(), Some(0));
    assert_eq!(app.config, AppConfig::default());
}

#[test]
fn test_app_reload() {
    let mut app = App::new(ROOT.to_string(), AppConfig::default(), Ok(ArtifactListResult::default()));
    app.reload_with(Ok(listing_of(&[("test.txt", "test"), (".hidden.txt", "hidden")])));
    assert_eq!(app.scroll_state(), Some(0));
    assert_eq!(app.entries_cache().len(), 1);
    assert_eq!(app.entries_cache()[0].name, "test.txt");
    assert_eq!(app.entries_cache()[0].path, format!("{ROOT}/test.txt"));
    assert_eq!(app.entries_cache()[0].artifact_type, ArtifactType::File);
    assert_eq!(app.entries_cache()[0].size, 4);
}

#[test]
fn test_app_filter() {
    let mut app = App::new(ROOT.to_string(), AppConfig::default(), Ok(listing_of(&[("test.txt", "test"), (".hidden.txt", "x")])));
    *app.filter_input_mut() = "test".to_string();
    app.filter();
    assert_eq!(app.entries_filtered().len(), 1);
    let found = app.entries_filtered()[0].clone();
    assert_eq!(found.name, "test.txt");
    assert_eq!(found.path, format!("{ROOT}/test.txt"));
    assert_eq!(found.artifact_type, ArtifactType::File);
    assert_eq!(found.size, 4);
}

#[test]
fn test_app_test_app_update_theme() {
    let mut app = App::new(".".to_string(), AppConfig::default(), Ok(ArtifactListResult::default()));
    app.update_theme();
    assert_eq!(app.config.theme, Themes::Midnight);
    app.update_theme();
    assert_eq!(app.config.theme, Themes::Solar);
    app.update_theme();
    assert_eq!(app.config.theme, Themes::Mono);
    app.update_theme();
    assert_eq!(app.config.theme, Themes::Forest);
    app.update_theme();
    assert_eq!(app.config.theme, Themes::Midnight);
}

// ---- tabs, split, bookmarks, history, marks and pane transfers ----------

#[test]
fn tabs_open_cycle_and_close() {
    let mut app = app_with_files(&[("a.txt", "a")]);
    app.new_tab();
    assert_eq!(app.tabs.len(), 2);
    assert_eq!(app.active_tab, 1);
    assert_eq!(app.status_message, "Tab 2 / 2");
    app.next_tab();
    assert_eq!(app.active_tab, 0);
    app.prev_tab();
    assert_eq!(app.active_tab, 1);
    app.close_tab();
    assert_eq!(app.tabs.len(), 1);
    assert_eq!(app.status_message, "Tab 1 / 1");
    app.close_tab();
    assert_eq!(app.status_message, "Cannot close the last tab");
    for _ in 0..9 {
        app.new_tab();
    }
    assert_eq!(app.tabs.len(), 9);
    assert_eq!(app.status_message, "Tab limit (9) reached");
}

#[test]
fn split_focus_and_transfer() {
    let mut app = app_with_files(&[("a.txt", "a")]);
    app.copy_to_other_pane();
    assert_eq!(app.status_message, "Split required for pane copy (\\)");
    app.toggle_split();
    assert_eq!(app.split_tab, Some(0));
    assert_eq!(app.active_tab, 1);
    app.focus_other_pane();
    assert_eq!(app.active_tab, 0);
    assert_eq!(app.split_tab, Some(1));
    app.focus_other_pane();
    assert_eq!(app.active_tab, 1);
    app.focus_other_pane();
    app.tabs[1].current_working_directory = "/nonexistent/rtvui/peer".to_string();
    app.move_to_other_pane();
    match app.requests.last() {
        Some(AppRequest::Transfer { items, skipped, peer, .. }) => {
            assert_eq!(*peer, 1);
            assert_eq!(*skipped, 0);
            assert_eq!(items, &vec![(format!("{ROOT}/a.txt"), "/nonexistent/rtvui/peer/a.txt".to_string())]);
        },
        _ => panic!("expected a transfer request"),
    }
    app.finish_transfer(r_tvui::models::app::TransferKind::Move, 1, 2, &vec![true, false]);
    assert_eq!(app.status_message, "Moved 1 item(s) to other pane · 2 skipped (exists) · 1 failed");
    app.toggle_split();
    assert_eq!(app.split_tab, None);
    assert_eq!(app.status_message, "Split off");
}

#[test]
fn bookmarks_are_numbered_and_reported() {
    let mut app = app_with_files(&[("a.txt", "a")]);
    app.bookmark_path("/one".to_string());
    assert_eq!(app.status_message, "Bookmarked as 1");
    app.bookmark_path("/two".to_string());
    assert_eq!(app.status_message, "Bookmarked as 2");
    app.bookmark_path("/one".to_string());
    assert_eq!(app.status_message, "Already bookmarked as 1");
    assert_eq!(app.config.cache.bookmarks, vec!["/one".to_string(), "/two".to_string()]);
    for i in 3..=10 {
        app.bookmark_path(format!("/p{i}"));
    }
    assert_eq!(app.config.cache.bookmarks.len(), 9);
    assert_eq!(app.config.cache.bookmarks[0], "/two");
    app.jump_to_bookmark(12);
    assert_eq!(app.status_message, "Bookmarked as 9");
    let mut fresh = app_with_files(&[("a.txt", "a")]);
    fresh.jump_to_bookmark(3);
    assert_eq!(fresh.status_message, "No bookmark in slot 3");
    fresh.bookmark_path("/no/such/rtvui/bookmark".to_string());
    fresh.jump_to_bookmark(1);
    assert_eq!(fresh.status_message, "Bookmark 1 missing: /no/such/rtvui/bookmark");
    fresh.bookmark_path("/".to_string());
    fresh.jump_to_bookmark(2);
    assert_eq!(fresh.status_message, "Jumped to bookmark 2");
    assert_eq!(fresh.current_working_directory(), "/");
}

#[test]
fn history_walks_back_and_forward() {
    let mut app = app_with_files(&[("a.txt", "a")]);
    app.history_back();
    assert_eq!(app.status_message, "History: at oldest");
    app.tabs[0].current_working_directory = "/nonexistent/rtvui/second".to_string();
    app.record_history();
    app.history_back();
    assert_eq!(app.status_message, "History: back");
    assert_eq!(app.current_working_directory(), ROOT);
    app.history_forward();
    assert_eq!(app.status_message, "History: forward");
    assert_eq!(app.current_working_directory(), "/nonexistent/rtvui/second");
    app.history_forward();
    assert_eq!(app.status_message, "History: at newest");
}

#[test]
fn marks_toggle_and_clear() {
    let mut app = app_with_files(&[("a.txt", "a"), ("b.txt", "b")]);
    app.toggle_mark();
    assert_eq!(app.status_message, "Marked: 1");
    app.toggle_mark();
    assert_eq!(app.status_message, "Marked: 0");
    app.toggle_mark();
    app.clear_marks();
    assert_eq!(app.status_message, "Marks cleared");
    assert!(app.pane().marked.is_empty());
}

#[test]
fn editor_queue_and_cycle_preview() {
    let mut app = app_with_files(&[("a.txt", "a")]);
    app.open_in_editor();
    assert_eq!(app.pending_editor, Some(format!("{ROOT}/a.txt")));
    app.cycle_preview();
    assert_eq!(app.config.settings.preview, Preview::Always);
    assert_eq!(app.status_message, "Preview: Always");
    *app.scroll_state_mut() = None;
    app.open_in_editor();
    assert_eq!(app.status_message, "Editor: nothing selected");
}

#[test]
fn delete_is_requested_and_reported() {
    let mut app = app_with_files(&[("doomed.txt", "a"), ("keep.txt", "b")]);
    app.config.settings.enable_trash = false;
    app.commit_delete();
    match app.requests.last() {
        Some(AppRequest::Delete { targets, use_trash }) => {
            assert!(!use_trash);
            assert_eq!(targets, &vec![(format!("{ROOT}/doomed.txt"), false)]);
        },
        _ => panic!("expected a delete request"),
    }
    app.finish_delete(false, &vec![true]);
    assert_eq!(app.status_message, "Deleted 1 item(s)");
    app.finish_delete(true, &vec![true, true]);
    assert_eq!(app.status_message, "Moved 2 item(s) to trash");
    app.finish_delete(true, &vec![true, false]);
    assert_eq!(app.status_message, "Deleted 1, failed 1");
}

#[test]
fn copy_path_is_requested_and_reported() {
    let mut app = app_with_files(&[("a.txt", "a"), ("b.txt", "b")]);
    app.copy_selected_path();
    assert!(matches!(app.requests.last(), Some(AppRequest::Clipboard { text }) if text == &format!("{ROOT}/a.txt")));
    app.scroll_state_mut().replace(1);
    app.toggle_mark();
    app.scroll_state_mut().replace(0);
    app.toggle_mark();
    app.copy_selected_path();
    let text = format!("{ROOT}/a.txt\n{ROOT}/b.txt");
    assert!(matches!(app.requests.last(), Some(AppRequest::Clipboard { text: t }) if t == &text));
    app.finish_copy_path(&text, Ok(()));
    assert_eq!(app.status_message, "Copied 2 paths");
    app.finish_copy_path(&"/x".to_string(), Ok(()));
    assert_eq!(app.status_message, "Copied /x");
    app.finish_copy_path(&"/x".to_string(), Err("no clipboard".to_string()));
    assert_eq!(app.status_message, "Copy failed: no clipboard");
    *app.scroll_state_mut() = None;
    app.clear_marks();
    app.copy_selected_path();
    assert_eq!(app.status_message, "Copy failed: nothing selected");
}

#[test]
fn palette_follows_theme() {
    let app = app_with_files(&[("a.txt", "a")]);
    assert_eq!(app.palette(), Themes::Forest.palette());
}

#[test]
fn goto_expands_a_leading_tilde() {
    let mut app = app_with_files(&[("a.txt", "a")]);
    app.goto_input = "  ~  ".to_string();
    let state = app.commit_goto();
    if state == AppState::Active {
        assert!(!app.current_working_directory().contains('~'));
        assert!(app.goto_input.is_empty());
    } else {
        assert!(app.status_message.starts_with("Go to failed: ~"));
    }
}

#[test]
fn commit_rename_rejects_existing_target() {
    // `/tmp` exists on the machine, so renaming `/old.txt` to `tmp` is refused.
    let files = vec![
        Artifact { name: "old.txt".to_string(), path: "/old.txt".to_string(), artifact_type: ArtifactType::File, size: 1, modified: None },
        Artifact { name: "tmp".to_string(), path: "/tmp".to_string(), artifact_type: ArtifactType::File, size: 1, modified: None },
    ];
    let listing = ArtifactListResult { artifacts: files, partial: false };
    let mut app = App::new("/".to_string(), AppConfig::default(), Ok(listing));
    let index = app.entries_filtered().iter().position(|a| a.name == "old.txt").unwrap();
    *app.scroll_state_mut() = Some(index);
    let before = app.requests.len();
    app.rename_input = "tmp".to_string();
    app.commit_rename();
    assert_eq!(app.requests.len(), before);
    assert!(app.status_message.contains("already exists"));
}

// ---- steps that take the filesystem's answers ---------------------------

#[test]
fn goto_candidate_joins_relative_paths() {
    assert_eq!(App::goto_candidate("/work", "sub/dir"), "/work/sub/dir");
    assert_eq!(App::goto_candidate("/work", "/etc"), "/etc");
}

#[test]
fn goto_resolved_reports_or_enters() {
    let mut app = app_with_files(&[("a.txt", "a")]);
    app.goto_input = "elsewhere".to_string();
    assert_eq!(app.goto_resolved("elsewhere", None, false), AppState::GoTo);
    assert_eq!(app.status_message, "Go to failed: elsewhere not found");
    assert_eq!(app.goto_input, "elsewhere");
    assert_eq!(app.goto_resolved("elsewhere", Some("/work/file".to_string()), false), AppState::GoTo);
    assert_eq!(app.status_message, "Go to failed: elsewhere is not a directory");
    let before = app.requests.len();
    assert_eq!(app.goto_resolved("elsewhere", Some("/target/dir".to_string()), true), AppState::Active);
    assert_eq!(app.current_working_directory(), "/target/dir");
    assert_eq!(app.pane().history.last().map(|s| s.as_str()), Some("/target/dir"));
    assert!(app.goto_input.is_empty());
    assert!(app.status_message.is_empty());
    assert!(app.requests.len() > before);
}

#[test]
fn jump_and_home_resolved() {
    let mut app = app_with_files(&[("a.txt", "a")]);
    app.bookmark_path("/mark/one".to_string());
    app.jump_resolved(1, None, false);
    assert_eq!(app.status_message, "Bookmark 1 missing: /mark/one");
    app.jump_resolved(1, Some("/mark/one".to_string()), true);
    assert_eq!(app.status_message, "Jumped to bookmark 1");
    assert_eq!(app.current_working_directory(), "/mark/one");
    app.home_resolved(None, None);
    assert_eq!(app.status_message, "Home directory unavailable");
    app.home_resolved(Some("/home/u".to_string()), Some("/real/home/u".to_string()));
    assert_eq!(app.current_working_directory(), "/real/home/u");
    app.home_resolved(Some("/home/v".to_string()), None);
    assert_eq!(app.current_working_directory(), "/home/v");
}

#[test]
fn bookmark_resolved_uses_canonical_form() {
    let mut app = app_with_files(&[("a.txt", "a")]);
    app.bookmark_resolved(Some("/canon/work".to_string()));
    assert_eq!(app.config.cache.bookmarks, vec!["/canon/work".to_string()]);
    app.bookmark_resolved(None);
    assert_eq!(app.config.cache.bookmarks, vec!["/canon/work".to_string(), ROOT.to_string()]);
    assert_eq!(app.status_message, "Bookmarked as 2");
}

#[test]
fn rename_probed_follows_the_probe() {
    let mut app = app_with_files(&[("old.txt", "a")]);
    app.rename_input = " new.txt ".to_string();
    assert_eq!(app.rename_target(), Some(format!("{ROOT}/new.txt")));
    let before = app.requests.len();
    app.rename_probed(true);
    assert_eq!(app.status_message, "Rename failed: new.txt already exists");
    assert_eq!(app.requests.len(), before);
    app.rename_probed(false);
    assert!(matches!(app.requests.last(), Some(AppRequest::Rename { to, .. }) if to == &format!("{ROOT}/new.txt")));
    app.rename_input = "a/b".to_string();
    assert_eq!(app.rename_target(), None);
    app.rename_input = "old.txt".to_string();
    assert_eq!(app.rename_target(), None);
}

#[test]
fn transfers_are_planned_from_the_probe() {
    let sources = vec!["/a/x.txt".to_string(), "/a/y.txt".to_string()];
    assert_eq!(
        r_tvui::models::actions::transfer_targets(&sources, "/b"),
        vec!["/b/x.txt".to_string(), "/b/y.txt".to_string()]
    );
    let (items, skipped) = r_tvui::models::actions::plan_transfer(&sources, "/b", &vec![true, false]);
    assert_eq!(items, vec![("/a/y.txt".to_string(), "/b/y.txt".to_string())]);
    assert_eq!(skipped, 1);
}

#[test]
fn delete_probed_uses_directory_answers() {
    let mut app = app_with_files(&[("d1", "a"), ("f2", "b")]);
    app.toggle_mark();
    app.delete_probed(&vec![true]);
    match app.requests.last() {
        Some(AppRequest::Delete { targets, .. }) => {
            assert_eq!(targets.len(), 1);
            assert!(targets[0].1);
        },
        _ => panic!("expected a delete request"),
    }
}

#[test]
fn reload_errors_are_shown_as_debug_text() {
    for err in [
        RTVUIError::FileSystemError(FileSystemErrors::NotFound("/x \"q\"\n".to_string())),
        RTVUIError::FileSystemError(FileSystemErrors::PermissionDenied("/p".to_string())),
        RTVUIError::FileSystemError(FileSystemErrors::InvalidPath("é\\".to_string())),
        RTVUIError::FileSystemError(FileSystemErrors::Io(std::io::Error::other("boom"))),
    ] {
        let expected = format!("Error: {err:?}");
        let mut app = app_with_files(&[("a.txt", "a")]);
        app.reload_with(Err(err));
        assert_eq!(app.status_message, expected);
    }
}

#[test]
fn enter_directory_as_records_the_given_entry() {
    let mut app = app_with_files(&[("a.txt", "a")]);
    app.enter_directory_as("/link/dir".to_string(), "/real/dir".to_string());
    assert_eq!(app.current_working_directory(), "/link/dir");
    assert_eq!(app.pane().history.last().map(|s| s.as_str()), Some("/real/dir"));
    assert_eq!(app.scroll_state(), Some(0));
}

#[test]
fn new_resolved_starts_on_the_canonical_form() {
    let app = App::new_resolved("rel".to_string(), Some("/abs/rel".to_string()), AppConfig::default(), Ok(listing_of(&[])));
    assert_eq!(app.current_working_directory(), "/abs/rel");
    let app = App::new_resolved("rel".to_string(), None, AppConfig::default(), Ok(listing_of(&[])));
    assert_eq!(app.current_working_directory(), "rel");
}
