//! Routing a key press to the handler of the current mode, and each mode's
//! own exit keys.

use vstd::prelude::*;
use crate::events::input::{KeyCode, KeyEvent};
use crate::events::key::{
    confirm_effect, filter_set_and_applied, goto_input_effect, handle_key_event_confirm_mode,
    handle_key_event_filter_input, handle_key_event_go_to_mode, handle_key_event_help_mode,
    handle_key_event_normal_mode, handle_key_event_rename_input, normal_key_effect, rename_input_effect, typed,
};
use crate::models::app::{App, AppState, begin_goto_effect, begin_rename_effect, lemma_wf_same_numbers};

verus! {

/// The state the delete key leads to: the confirmation when something is
/// marked or selected.
pub open spec fn delete_state(a: App) -> AppState {
    if a.active().marked@.len() > 0 || a.active().selected_entry() is Some {
        AppState::Confirm
    } else {
        AppState::Active
    }
}

/// `b` is `a` after key `code` in normal mode, which then answers `r`.
pub open spec fn normal_mode_effect(code: KeyCode, a: App, b: App, r: AppState) -> bool {
    match code {
        KeyCode::Esc | KeyCode::Char('q') => r == AppState::Quit && b == a,
        KeyCode::Char('/') => r == AppState::Filter && filter_set_and_applied(a, b, Seq::empty()),
        KeyCode::Char('g') => begin_goto_effect(a, b, r),
        KeyCode::Char('?') => r == AppState::Help && b == a,
        KeyCode::Char('x') | KeyCode::Delete => r == delete_state(a) && b == a,
        KeyCode::F(n) => if n == 2 {
            begin_rename_effect(a, b, r)
        } else {
            r == AppState::Active && normal_key_effect(code, a, b)
        },
        _ => r == AppState::Active && normal_key_effect(code, a, b),
    }
}

/// `b` is `a` after key `code` at the filter prompt, which then answers
/// `r`: Esc empties and applies the filter and leaves; other keys edit it.
pub open spec fn filter_mode_effect(code: KeyCode, a: App, b: App, r: AppState) -> bool {
    if code == KeyCode::Esc {
        r == AppState::Active && filter_set_and_applied(a, b, Seq::empty())
    } else {
        r == AppState::Filter && filter_set_and_applied(a, b, typed(a.active().filter_input@, code))
    }
}

/// `b` is `a` after key `code` at the rename prompt, which then answers
/// `r`: Esc leaves it.
pub open spec fn rename_mode_effect(code: KeyCode, a: App, b: App, r: AppState) -> bool {
    if code == KeyCode::Esc {
        r == AppState::Active && b == a
    } else {
        rename_input_effect(code, a, b, r)
    }
}

/// `b` is `a` after key `code` at the go-to prompt, which then answers
/// `r`: Esc empties the prompt and leaves it.
pub open spec fn goto_mode_effect(code: KeyCode, a: App, b: App, r: AppState) -> bool {
    if code == KeyCode::Esc {
        r == AppState::Active && b == (App { goto_input: b.goto_input, ..a }) && b.goto_input@.len() == 0
    } else {
        goto_input_effect(code, a, b, r)
    }
}

/// Whether `code` cancels the delete confirmation.
pub open spec fn cancels_confirm(code: KeyCode) -> bool {
    code == KeyCode::Esc || code == KeyCode::Char('q') || code == KeyCode::Char('n')
}

/// `b` is `a` after key `code` at the delete confirmation, which then
/// answers `r`: Esc, `q` and `n` cancel it.
pub open spec fn confirm_mode_effect(code: KeyCode, a: App, b: App, r: AppState) -> bool {
    if cancels_confirm(code) {
        r == AppState::Active && b == a
    } else {
        confirm_effect(code, a, b, r)
    }
}

/// `b` is `a` after key `code` in the help overlay, which then answers
/// `r`: Esc and `q` close it.
pub open spec fn help_mode_effect(code: KeyCode, a: App, b: App, r: AppState) -> bool {
    &&& b == a
    &&& r == (if code == KeyCode::Esc || code == KeyCode::Char('q') {
        AppState::Active
    } else {
        AppState::Help
    })
}

/// `b` is `a` after key `code` in state `s`, the handler answering `r`.
pub open spec fn mode_effect(s: AppState, code: KeyCode, a: App, b: App, r: AppState) -> bool {
    match s {
        AppState::Active => normal_mode_effect(code, a, b, r),
        AppState::Filter => filter_mode_effect(code, a, b, r),
        AppState::Rename => rename_mode_effect(code, a, b, r),
        AppState::GoTo => goto_mode_effect(code, a, b, r),
        AppState::Confirm => confirm_mode_effect(code, a, b, r),
        AppState::Help => help_mode_effect(code, a, b, r),
        AppState::Quit => r == AppState::Quit && b == a,
    }
}

/// Empties the active tab's filter and applies it.
fn clear_filter(app: &mut App)
    requires
        old(app).wf(),
        old(app).headroom(),
    ensures
        final(app).wf(),
        filter_set_and_applied(*old(app), *final(app), Seq::empty()),
{
    let a = app.active_tab;
    app.tabs[a].filter_input = String::new();
    proof {
        lemma_wf_same_numbers(*old(app), *app);
        assert(app.active() == (crate::models::pane::BrowserPane {
            filter_input: app.active().filter_input,
            ..old(app).active()
        }));
    }
    let ghost m = *app;
    app.filter();
    assert(crate::events::key::filter_text_set(*old(app), m, Seq::empty()));
}

/// Routes a key press to the handler of the current state and stores the
/// state it answers; a quit explorer stays quit.
pub fn dispatch_key(app: &mut App, event_key: KeyEvent)
    requires
        old(app).wf(),
        old(app).headroom(),
    ensures
        final(app).wf(),
        exists|m: App|
            mode_effect(old(app).state, event_key.code, *old(app), m, final(app).state) && *final(app) == (App {
                state: final(app).state,
                ..m
            }),
{
    let s = app.state;
    let r = match s {
        AppState::Active => handle_key_events_normal_mode(app, event_key),
        AppState::Filter => handle_key_events_filter_mode(app, event_key),
        AppState::Rename => handle_key_events_rename_mode(app, event_key),
        AppState::GoTo => handle_key_events_go_to_mode(app, event_key),
        AppState::Confirm => handle_key_events_confirm_mode(app, event_key),
        AppState::Help => handle_key_events_help_mode(app, event_key),
        AppState::Quit => AppState::Quit,
    };
    let ghost m = *app;
    app.state = r;
    assert(mode_effect(old(app).state, event_key.code, *old(app), m, app.state));
}

/// Normal mode: Esc and `q` quit, `/` opens the filter (emptied), `g` the
/// go-to prompt, `?` the help, F2 the rename prompt, `x` and Delete the
/// delete confirmation; other keys act in place.
pub fn handle_key_events_normal_mode(app: &mut App, event_key: KeyEvent) -> (r: AppState)
    requires
        old(app).wf(),
        old(app).headroom(),
    ensures
        final(app).wf(),
        normal_mode_effect(event_key.code, *old(app), *final(app), r),
{
    match event_key.code {
        KeyCode::Esc | KeyCode::Char('q') => AppState::Quit,
        KeyCode::Char('/') => {
            clear_filter(app);
            AppState::Filter
        },
        KeyCode::Char('g') => app.begin_goto(),
        KeyCode::Char('?') => AppState::Help,
        KeyCode::Char('x') | KeyCode::Delete => app.begin_delete(),
        KeyCode::F(n) => if n == 2 {
            app.begin_rename()
        } else {
            handle_key_event_normal_mode(app, event_key)
        },
        _ => handle_key_event_normal_mode(app, event_key),
    }
}

/// Rename prompt: Esc leaves it; other keys edit or commit.
pub fn handle_key_events_rename_mode(app: &mut App, event_key: KeyEvent) -> (r: AppState)
    requires
        old(app).wf(),
        old(app).headroom(),
    ensures
        final(app).wf(),
        rename_mode_effect(event_key.code, *old(app), *final(app), r),
{
    match event_key.code {
        KeyCode::Esc => AppState::Active,
        _ => handle_key_event_rename_input(app, event_key),
    }
}

/// Filter prompt: Esc empties the filter and leaves; other keys edit it.
pub fn handle_key_events_filter_mode(app: &mut App, event_key: KeyEvent) -> (r: AppState)
    requires
        old(app).wf(),
        old(app).headroom(),
    ensures
        final(app).wf(),
        filter_mode_effect(event_key.code, *old(app), *final(app), r),
{
    match event_key.code {
        KeyCode::Esc => {
            clear_filter(app);
            AppState::Active
        },
        _ => handle_key_event_filter_input(app, event_key),
    }
}

/// Go-to prompt: Esc empties it and leaves; other keys edit or commit
/// (`q` is path input).
pub fn handle_key_events_go_to_mode(app: &mut App, event_key: KeyEvent) -> (r: AppState)
    requires
        old(app).wf(),
        old(app).headroom(),
    ensures
        final(app).wf(),
        goto_mode_effect(event_key.code, *old(app), *final(app), r),
{
    match event_key.code {
        KeyCode::Esc => {
            app.goto_input = String::new();
            AppState::Active
        },
        _ => handle_key_event_go_to_mode(app, event_key),
    }
}

/// Delete confirmation: Esc, `q` and `n` cancel; `y` confirms.
pub fn handle_key_events_confirm_mode(app: &mut App, event_key: KeyEvent) -> (r: AppState)
    requires
        old(app).wf(),
    ensures
        final(app).wf(),
        confirm_mode_effect(event_key.code, *old(app), *final(app), r),
{
    match event_key.code {
        KeyCode::Esc | KeyCode::Char('q') | KeyCode::Char('n') => AppState::Active,
        _ => handle_key_event_confirm_mode(app, event_key),
    }
}

/// Help overlay: Esc and `q` close it; other keys keep it open.
pub fn handle_key_events_help_mode(app: &mut App, event_key: KeyEvent) -> (r: AppState)
    requires
        old(app).wf(),
    ensures
        final(app).wf(),
        help_mode_effect(event_key.code, *old(app), *final(app), r),
{
    match event_key.code {
        KeyCode::Esc | KeyCode::Char('q') => AppState::Active,
        _ => handle_key_event_help_mode(app, event_key),
    }
}

} // verus!
