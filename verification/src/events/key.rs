//! What a key does inside each mode, once the mode's own exit keys have
//! been handled.

use vstd::prelude::*;
use crate::config::app::{AppConfig, Settings};
use crate::events::input::{KeyCode, KeyEvent};
use crate::events::utils::{
    down_effect, forward_effect, handle_key_event_enter_mode, home_effect, leave_directory, open_effect,
    parent_effect, scroll_down, scroll_forward, scroll_home, scroll_up, up_effect,
};
use crate::models::actions::{commit_delete_effect, copy_path_effect, transfer_effect};
use crate::models::app::{
    App, AppRequest, AppState, TransferKind, bookmark_cwd_effect, clear_marks_effect, close_tab_effect,
    commit_goto_effect, commit_rename_effect, cycle_preview_effect, filter_effect, focus_other_pane_effect,
    history_back_effect, history_forward_effect, jump_home_effect, jump_to_bookmark_effect,
    lemma_wf_same_numbers, new_tab_effect, next_sort, next_tab_effect, next_theme, open_in_editor_effect,
    prev_tab_effect, refresh_effect, toggle_mark_effect, toggle_split_effect,
};
use crate::models::pane::BrowserPane;
use crate::artifact::ArtifactType;
use crate::text::drop_last_char;

verus! {

/// Whether `code` moves the selection or the working directory.
pub open spec fn is_navigation_key(code: KeyCode) -> bool {
    match code {
        KeyCode::Up | KeyCode::Down | KeyCode::Left | KeyCode::Right | KeyCode::Enter => true,
        KeyCode::Char(c) => c == 'w' || c == 'k' || c == 's' || c == 'j' || c == 'a' || c == 'd' || c
            == 'l',
        _ => false,
    }
}

/// Whether the selection is on a regular file.
pub open spec fn file_selected(a: App) -> bool {
    a.active().selected_entry() matches Some(e) && e.artifact_type == ArtifactType::File
}

/// `b` is `a` after navigation key `code`.
pub open spec fn navigation_effect(code: KeyCode, a: App, b: App) -> bool {
    match code {
        KeyCode::Up | KeyCode::Char('w') | KeyCode::Char('k') => up_effect(a, b),
        KeyCode::Down | KeyCode::Char('s') | KeyCode::Char('j') => down_effect(a, b),
        KeyCode::Left | KeyCode::Char('a') => parent_effect(a, b),
        KeyCode::Right | KeyCode::Char('d') | KeyCode::Char('l') => forward_effect(a, b),
        KeyCode::Enter => if file_selected(a) {
            open_effect(a, b)
        } else {
            forward_effect(a, b)
        },
        _ => b == a,
    }
}

/// The bookmark slot a digit key names.
pub open spec fn digit_slot(c: char) -> usize {
    match c {
        '1' => 1usize,
        '2' => 2usize,
        '3' => 3usize,
        '4' => 4usize,
        '5' => 5usize,
        '6' => 6usize,
        '7' => 7usize,
        '8' => 8usize,
        '9' => 9usize,
        _ => 0usize,
    }
}

/// `m` is `a` with the configuration saved: a request to write it was
/// added, and nothing else changed.
pub open spec fn config_saved(a: App, m: App) -> bool {
    &&& m == (App { requests: m.requests, ..a })
    &&& m.requests@.len() == a.requests@.len() + 1
    &&& m.requests@.subrange(0, a.requests@.len() as int) == a.requests@
    &&& m.requests@.last() matches AppRequest::SaveConfig { config } && config.theme == a.config.theme
        && config.settings == a.config.settings && config.cache.bookmarks@ == a.config.cache.bookmarks@
}

/// `b` is `a` with its configuration replaced by `config`, saved, and the
/// active tab listed again.
pub open spec fn config_changed_and_listed(a: App, b: App, config: AppConfig) -> bool {
    exists|m: App| config_saved(App { config, ..a }, m) && refresh_effect(m, b)
}

/// `b` is `a` after options key `code` (any key that is not one is
/// ignored).
pub open spec fn options_effect(code: KeyCode, a: App, b: App) -> bool {
    match code {
        KeyCode::Char('t') => config_saved(
            App { config: AppConfig { theme: next_theme(a.config.theme), ..a.config }, ..a },
            b,
        ),
        KeyCode::Char('r') => refresh_effect(a, b),
        KeyCode::Char('.') => config_changed_and_listed(
            a,
            b,
            AppConfig {
                settings: Settings { show_hidden: !a.config.settings.show_hidden, ..a.config.settings },
                ..a.config
            },
        ),
        KeyCode::Char('o') => config_changed_and_listed(
            a,
            b,
            AppConfig {
                settings: Settings { sort: next_sort(a.config.settings.sort), ..a.config.settings },
                ..a.config
            },
        ),
        KeyCode::Char('h') | KeyCode::Home => home_effect(a, b),
        KeyCode::Char(' ') => toggle_mark_effect(a, b),
        KeyCode::Char('U') => clear_marks_effect(a, b),
        KeyCode::Char('N') => new_tab_effect(a, b),
        KeyCode::Char('W') => close_tab_effect(a, b),
        KeyCode::Char(']') => next_tab_effect(a, b),
        KeyCode::Char('[') => prev_tab_effect(a, b),
        KeyCode::Char('\\') => toggle_split_effect(a, b),
        KeyCode::Tab => focus_other_pane_effect(a, b),
        KeyCode::Char('c') => transfer_effect(a, b, TransferKind::Copy),
        KeyCode::Char('m') => transfer_effect(a, b, TransferKind::Move),
        KeyCode::Char('e') => open_in_editor_effect(a, b),
        KeyCode::Char('G') => jump_home_effect(a, b),
        KeyCode::Char('P') => cycle_preview_effect(a, b),
        KeyCode::Char('y') => copy_path_effect(a, b),
        KeyCode::Char('b') => bookmark_cwd_effect(a, b),
        KeyCode::Char('u') => history_back_effect(a, b),
        KeyCode::Char('i') => history_forward_effect(a, b),
        KeyCode::Char(c) => if digit_slot(c) != 0 {
            jump_to_bookmark_effect(a, b, digit_slot(c))
        } else {
            b == a
        },
        _ => b == a,
    }
}

/// The text of a prompt after `code` was typed into it: a character is
/// appended, backspace removes the last one, anything else leaves it.
pub open spec fn typed(text: Seq<char>, code: KeyCode) -> Seq<char> {
    match code {
        KeyCode::Char(c) => text.push(c),
        KeyCode::Backspace => if text.len() == 0 {
            text
        } else {
            text.drop_last()
        },
        _ => text,
    }
}

/// `m` is `a` with the active tab's filter text set to `text`.
pub open spec fn filter_text_set(a: App, m: App, text: Seq<char>) -> bool {
    &&& m == (App { tabs: m.tabs, ..a })
    &&& m.tabs@.len() == a.tabs@.len()
    &&& forall|i: int| 0 <= i < a.tabs@.len() && i != a.active_tab ==> m.tabs@[i] == a.tabs@[i]
    &&& m.active() == (BrowserPane { filter_input: m.active().filter_input, ..a.active() })
    &&& m.active().filter_input@ == text
}

/// `b` is `a` after the active tab's filter text became `text` and was
/// applied.
pub open spec fn filter_set_and_applied(a: App, b: App, text: Seq<char>) -> bool {
    exists|m: App| filter_text_set(a, m, text) && filter_effect(m, b)
}

/// `b` is `a` after normal-mode key `code` below the mode switches.
pub open spec fn normal_key_effect(code: KeyCode, a: App, b: App) -> bool {
    &&& is_navigation_key(code) ==> navigation_effect(code, a, b)
    &&& !is_navigation_key(code) ==> options_effect(code, a, b)
}

/// `b` is `a` after `code` was typed at the rename prompt, which then
/// answers `r`.
pub open spec fn rename_input_effect(code: KeyCode, a: App, b: App, r: AppState) -> bool {
    &&& code == KeyCode::Enter ==> r == AppState::Active && commit_rename_effect(a, b)
    &&& code != KeyCode::Enter ==> {
        &&& r == AppState::Rename
        &&& b == (App { rename_input: b.rename_input, ..a })
        &&& b.rename_input@ == typed(a.rename_input@, code)
    }
}

/// `b` is `a` after `code` was typed at the go-to prompt, which then
/// answers `r`.
pub open spec fn goto_input_effect(code: KeyCode, a: App, b: App, r: AppState) -> bool {
    &&& code == KeyCode::Enter ==> commit_goto_effect(a, b, r)
    &&& code != KeyCode::Enter ==> {
        &&& r == AppState::GoTo
        &&& b == (App { goto_input: b.goto_input, ..a })
        &&& b.goto_input@ == typed(a.goto_input@, code)
    }
}

/// Whether `code` confirms a delete.
pub open spec fn is_yes(code: KeyCode) -> bool {
    code == KeyCode::Char('y') || code == KeyCode::Char('Y')
}

/// `b` is `a` after `code` at the delete confirmation, which then answers
/// `r`.
pub open spec fn confirm_effect(code: KeyCode, a: App, b: App, r: AppState) -> bool {
    &&& is_yes(code) ==> r == AppState::Active && commit_delete_effect(a, b)
    &&& !is_yes(code) ==> r == AppState::Confirm && b == a
}

/// Sets the active tab's filter text, keeping everything else.
fn set_filter_text(app: &mut App, text: String)
    requires
        old(app).wf(),
    ensures
        final(app).wf(),
        filter_text_set(*old(app), *final(app), text@),
{
    let a = app.active_tab;
    app.tabs[a].filter_input = text;
    proof {
        lemma_wf_same_numbers(*old(app), *app);
        assert(app.active() == (BrowserPane { filter_input: app.active().filter_input, ..old(app).active() }));
    }
}

/// Asks to save the configuration.
fn request_config_save(app: &mut App)
    ensures
        config_saved(*old(app), *final(app)),
{
    let snapshot = app.config.clone();
    app.requests.push(AppRequest::SaveConfig { config: snapshot });
    assert(app.requests@.subrange(0, old(app).requests@.len() as int) =~= old(app).requests@);
}

/// Normal mode below the mode switches: navigation keys, then option keys;
/// the explorer stays active.
pub fn handle_key_event_normal_mode(app: &mut App, event_key: KeyEvent) -> (r: AppState)
    requires
        old(app).wf(),
        old(app).headroom(),
    ensures
        r == AppState::Active,
        final(app).wf(),
        normal_key_effect(event_key.code, *old(app), *final(app)),
{
    handle_navigation_keys(app, event_key);
    handle_options_keys(app, event_key);
    AppState::Active
}

/// Typing at the filter prompt: a character is added, backspace removes
/// one, and the filter is applied again; the prompt stays open.
pub fn handle_key_event_filter_input(app: &mut App, event_key: KeyEvent) -> (r: AppState)
    requires
        old(app).wf(),
        old(app).headroom(),
    ensures
        r == AppState::Filter,
        final(app).wf(),
        filter_set_and_applied(
            *old(app),
            *final(app),
            typed(old(app).active().filter_input@, event_key.code),
        ),
{
    let a = app.active_tab;
    let mut text = app.tabs[a].filter_input.clone();
    match event_key.code {
        KeyCode::Char(c) => text.push(c),
        KeyCode::Backspace => drop_last_char(&mut text),
        _ => {},
    }
    set_filter_text(app, text);
    let ghost m = *app;
    app.filter();
    assert(filter_text_set(*old(app), m, typed(old(app).active().filter_input@, event_key.code)));
    AppState::Filter
}

/// Typing at the rename prompt: a character is added, backspace removes
/// one, Enter commits the rename and leaves the prompt; other keys are
/// ignored.
pub fn handle_key_event_rename_input(app: &mut App, event_key: KeyEvent) -> (r: AppState)
    requires
        old(app).wf(),
        old(app).headroom(),
    ensures
        final(app).wf(),
        rename_input_effect(event_key.code, *old(app), *final(app), r),
{
    match event_key.code {
        KeyCode::Char(c) => {
            app.rename_input.push(c);
            AppState::Rename
        },
        KeyCode::Backspace => {
            drop_last_char(&mut app.rename_input);
            AppState::Rename
        },
        KeyCode::Enter => {
            app.commit_rename();
            AppState::Active
        },
        _ => AppState::Rename,
    }
}

/// Typing at the go-to prompt: a character is added, backspace removes
/// one, Enter tries to go there (see `App::commit_goto`); other keys are
/// ignored.
pub fn handle_key_event_go_to_mode(app: &mut App, event_key: KeyEvent) -> (r: AppState)
    requires
        old(app).wf(),
        old(app).headroom(),
    ensures
        final(app).wf(),
        goto_input_effect(event_key.code, *old(app), *final(app), r),
{
    match event_key.code {
        KeyCode::Char(c) => {
            app.goto_input.push(c);
            AppState::GoTo
        },
        KeyCode::Backspace => {
            drop_last_char(&mut app.goto_input);
            AppState::GoTo
        },
        KeyCode::Enter => app.commit_goto(),
        _ => AppState::GoTo,
    }
}

/// At the delete confirmation: `y` (or `Y`) deletes and leaves the
/// confirmation; other keys keep it open.
pub fn handle_key_event_confirm_mode(app: &mut App, event_key: KeyEvent) -> (r: AppState)
    requires
        old(app).wf(),
    ensures
        confirm_effect(event_key.code, *old(app), *final(app), r),
{
    match event_key.code {
        KeyCode::Char('y') | KeyCode::Char('Y') => {
            app.commit_delete();
            AppState::Active
        },
        _ => AppState::Confirm,
    }
}

/// In the help overlay every key keeps it open.
pub fn handle_key_event_help_mode(app: &mut App, event_key: KeyEvent) -> (r: AppState)
    ensures
        r == AppState::Help,
        *final(app) == *old(app),
{
    AppState::Help
}

/// The navigation keys: selection up and down, parent directory, entering
/// the selected directory, and Enter (opening a file, or entering a
/// directory).
fn handle_navigation_keys(app: &mut App, event_key: KeyEvent)
    requires
        old(app).wf(),
        old(app).headroom(),
    ensures
        final(app).wf(),
        final(app).next_generation <= old(app).next_generation + 1,
        final(app).next_previewer_generation <= old(app).next_previewer_generation + 1,
        navigation_effect(event_key.code, *old(app), *final(app)),
{
    match event_key.code {
        KeyCode::Up | KeyCode::Char('w') | KeyCode::Char('k') => scroll_up(app),
        KeyCode::Down | KeyCode::Char('s') | KeyCode::Char('j') => scroll_down(app),
        KeyCode::Left | KeyCode::Char('a') => leave_directory(app),
        KeyCode::Right | KeyCode::Char('d') | KeyCode::Char('l') => scroll_forward(app),
        KeyCode::Enter => {
            if app.is_file_artifact() {
                handle_key_event_enter_mode(app);
            } else {
                scroll_forward(app);
            }
        },
        _ => {},
    }
}

/// The option keys: theme, refresh, hidden files, sort, root, marks, tabs,
/// split, pane transfers, editor, home, preview, clipboard, bookmarks and
/// history.
fn handle_options_keys(app: &mut App, event_key: KeyEvent)
    requires
        old(app).wf(),
        old(app).next_generation < 0xffff_ffff_ffff_fff0,
        old(app).next_previewer_generation < 0xffff_ffff_ffff_fff0,
    ensures
        final(app).wf(),
        options_effect(event_key.code, *old(app), *final(app)),
{
    match event_key.code {
        KeyCode::Char('t') => {
            app.update_theme();
            request_config_save(app);
        },
        KeyCode::Char('r') => app.refresh(),
        KeyCode::Char('.') => {
            app.config.settings.show_hidden = !app.config.settings.show_hidden;
            let ghost changed = *app;
            request_config_save(app);
            let ghost saved = *app;
            app.refresh();
            assert(config_saved(App { config: changed.config, ..*old(app) }, saved));
        },
        KeyCode::Char('o') => {
            app.cycle_sort();
            let ghost changed = *app;
            request_config_save(app);
            let ghost saved = *app;
            app.refresh();
            assert(config_saved(App { config: changed.config, ..*old(app) }, saved));
        },
        KeyCode::Char('h') | KeyCode::Home => scroll_home(app),
        KeyCode::Char(' ') => app.toggle_mark(),
        KeyCode::Char('U') => app.clear_marks(),
        KeyCode::Char('N') => app.new_tab(),
        KeyCode::Char('W') => app.close_tab(),
        KeyCode::Char(']') => app.next_tab(),
        KeyCode::Char('[') => app.prev_tab(),
        KeyCode::Char('\\') => app.toggle_split(),
        KeyCode::Tab => app.focus_other_pane(),
        KeyCode::Char('c') => app.copy_to_other_pane(),
        KeyCode::Char('m') => app.move_to_other_pane(),
        KeyCode::Char('e') => app.open_in_editor(),
        KeyCode::Char('G') => app.jump_home(),
        KeyCode::Char('P') => app.cycle_preview(),
        KeyCode::Char('y') => app.copy_selected_path(),
        KeyCode::Char('b') => app.bookmark_cwd(),
        KeyCode::Char('u') => app.history_back(),
        KeyCode::Char('i') => app.history_forward(),
        KeyCode::Char('1') => app.jump_to_bookmark(1),
        KeyCode::Char('2') => app.jump_to_bookmark(2),
        KeyCode::Char('3') => app.jump_to_bookmark(3),
        KeyCode::Char('4') => app.jump_to_bookmark(4),
        KeyCode::Char('5') => app.jump_to_bookmark(5),
        KeyCode::Char('6') => app.jump_to_bookmark(6),
        KeyCode::Char('7') => app.jump_to_bookmark(7),
        KeyCode::Char('8') => app.jump_to_bookmark(8),
        KeyCode::Char('9') => app.jump_to_bookmark(9),
        _ => {},
    }
}

/// A digit key `1` to `9` names the bookmark slot of its value, and in
/// normal mode pressing it jumps to that slot.
pub proof fn lemma_digit_key_jumps_to_its_slot(c: char, a: App, b: App)
    requires
        '1' <= c <= '9',
    ensures
        digit_slot(c) == (c as u32) - ('0' as u32),
        normal_key_effect(KeyCode::Char(c), a, b) ==> jump_to_bookmark_effect(
            a,
            b,
            ((c as u32) - ('0' as u32)) as usize,
        ),
{
}

/// The selection keys move the right way: `w`, `k` and Up select the row
/// above (the first row stays put), `s`, `j` and Down the row below (the
/// last row stays put), and the directory and listing stay the same.
pub proof fn lemma_selection_keys_move(code: KeyCode, a: App, b: App, s: usize)
    requires
        a.active().selected == Some(s),
        normal_key_effect(code, a, b),
    ensures
        (code == KeyCode::Up || code == KeyCode::Char('w') || code == KeyCode::Char('k')) ==> {
            &&& s > 0 ==> b.active().selected == Some((s - 1) as usize)
            &&& s == 0 ==> b.active().selected == Some(0usize)
            &&& b.active().current_working_directory == a.active().current_working_directory
            &&& b.active().entries_filtered == a.active().entries_filtered
        },
        (code == KeyCode::Down || code == KeyCode::Char('s') || code == KeyCode::Char('j')) ==> {
            &&& s + 1 < a.active().entries_filtered@.len() ==> b.active().selected == Some((s + 1) as usize)
            &&& s + 1 >= a.active().entries_filtered@.len() ==> b.active().selected == Some(s)
            &&& b.active().current_working_directory == a.active().current_working_directory
            &&& b.active().entries_filtered == a.active().entries_filtered
        },
{
}

} // verus!
