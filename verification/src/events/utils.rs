//! Navigation steps shared by the key handlers: moving the selection,
//! entering and leaving directories, and opening the selected file.

use vstd::prelude::*;
use crate::artifact::ArtifactType;
use crate::models::app::{App, AppRequest, entered, entered_as, lemma_wf_same_numbers, options_of, preview_requests, same_app_settings};
use crate::pathops::{component_count, joined, parent_of, path_component_count, path_join, path_pop};
use crate::text::push_chars;

verus! {

/// The row above `s`; the first row stays.
pub open spec fn row_up(s: usize) -> usize {
    if s == 0 {
        0
    } else {
        (s - 1) as usize
    }
}

/// The row below `s` among `len` rows; the last row stays.
pub open spec fn row_down(s: usize, len: nat) -> usize {
    if s + 1 < len {
        (s + 1) as usize
    } else {
        s
    }
}

/// `p` after `n` steps up to its parent (a step at a root changes
/// nothing).
pub open spec fn pop_times(p: Seq<char>, n: nat) -> Seq<char>
    decreases n,
{
    if n == 0 {
        p
    } else {
        let q = pop_times(p, (n - 1) as nat);
        match parent_of(q) {
            Some(r) => r,
            None => q,
        }
    }
}

/// `b` is `a` after the active tab's selection moved to row `sel` and a
/// preview of the entry there was asked for.
pub open spec fn moved_selection(a: App, b: App, sel: usize) -> bool {
    &&& b.wf()
    &&& b.tabs@.len() == a.tabs@.len()
    &&& forall|i: int| 0 <= i < a.tabs@.len() && i != a.active_tab ==> b.tabs@[i] == a.tabs@[i]
    &&& b.active().selected == Some(sel)
    &&& b.active().current_working_directory == a.active().current_working_directory
    &&& b.active().entries_filtered == a.active().entries_filtered
    &&& b.active().marked == a.active().marked
    &&& b.next_generation == a.next_generation
    &&& b.next_previewer_generation == a.next_previewer_generation + 1
    &&& b.requests@ == a.requests@ + preview_requests(
        b.active().selected_entry(),
        a.config.settings.preview,
        b.next_previewer_generation,
        options_of(a.config),
    )
    &&& same_app_settings(a, b)
    &&& b.status_message == a.status_message
}

/// `b` has `a`'s status line and go-to prompt.
pub open spec fn same_prompts(a: App, b: App) -> bool {
    b.status_message == a.status_message && b.goto_input == a.goto_input
}

/// `b` is `a` after the selection moved one row up (see `scroll_up`).
pub open spec fn up_effect(a: App, b: App) -> bool {
    match a.active().selected {
        None => b == a,
        Some(s) => moved_selection(a, b, row_up(s)),
    }
}

/// `b` is `a` after the selection moved one row down (see `scroll_down`).
pub open spec fn down_effect(a: App, b: App) -> bool {
    match a.active().selected {
        None => b == a,
        Some(s) => moved_selection(a, b, row_down(s, a.active().entries_filtered@.len())),
    }
}

/// `b` is `a` after the active tab moved to its parent directory, if it
/// has one.
pub open spec fn parent_effect(a: App, b: App) -> bool {
    match parent_of(a.active().current_working_directory@) {
        None => b == a,
        Some(q) => exists|p: String| p@ == q && entered(a, b, p) && same_prompts(a, b),
    }
}

/// `b` is `a` after the active tab walked up to the filesystem root.
pub open spec fn home_effect(a: App, b: App) -> bool {
    exists|p: String|
        p@ == pop_times(
            a.active().current_working_directory@,
            component_count(a.active().current_working_directory@),
        ) && entered(a, b, p) && same_prompts(a, b)
}

/// `b` is `a` after entering the selected directory, if the selection is
/// on one.
pub open spec fn forward_effect(a: App, b: App) -> bool {
    match a.active().selected_entry() {
        Some(e) => if e.artifact_type == ArtifactType::Directory {
            exists|p: String|
                p@ == joined(a.active().current_working_directory@, e.name@) && entered(a, b, p)
                    && same_prompts(a, b)
        } else {
            b == a
        },
        None => b == a,
    }
}

/// `b` is `a` after asking to open the selected entry, if any.
pub open spec fn open_effect(a: App, b: App) -> bool {
    match a.active().selected_entry() {
        None => b == a,
        Some(e) => {
            &&& b == (App { status_message: b.status_message, requests: b.requests, ..a })
            &&& b.status_message@ == "Opening "@ + e.name@
            &&& b.requests@ == a.requests@.push(AppRequest::OpenFile { path: e.path })
        },
    }
}

/// Entering a directory from `m` is entering it from `a` when the two
/// differ at most in the active tab's working directory.
proof fn lemma_entered_from_moved(a: App, m: App, b: App, path: String)
    requires
        entered(m, b, path),
        m.tabs@.len() == a.tabs@.len(),
        forall|j: int| 0 <= j < a.tabs@.len() && j != a.active_tab ==> m.tabs@[j] == a.tabs@[j],
        m.active().history == a.active().history,
        m.active().history_index == a.active().history_index,
        m.next_generation == a.next_generation,
        m.requests == a.requests,
        same_app_settings(a, m),
    ensures
        entered(a, b, path),
{
    let c = choose|c: String| entered_as(m, b, path, c);
    assert(entered_as(a, b, path, c));
}

/// Puts the active tab's selection on `row` and asks for a preview.
fn select_row(app: &mut App, row: usize)
    requires
        old(app).wf(),
        old(app).next_previewer_generation < 0xffff_ffff_ffff_ffff,
    ensures
        moved_selection(*old(app), *final(app), row),
{
    let a = app.active_tab;
    app.tabs[a].selected = Some(row);
    proof {
        lemma_wf_same_numbers(*old(app), *app);
    }
    app.request_previewer();
}

/// Moves the selection one row up (staying on the first row) and asks for
/// a preview; does nothing without a selection.
pub fn scroll_up(app: &mut App)
    requires
        old(app).wf(),
        old(app).next_previewer_generation < 0xffff_ffff_ffff_ffff,
    ensures
        up_effect(*old(app), *final(app)),
{
    let a = app.active_tab;
    let s = match app.tabs[a].selected {
        Some(s) => s,
        None => return,
    };
    let row = if s == 0 {
        0
    } else {
        s - 1
    };
    select_row(app, row);
}

/// Moves the selection one row down (staying on the last row) and asks for
/// a preview; does nothing without a selection.
pub fn scroll_down(app: &mut App)
    requires
        old(app).wf(),
        old(app).next_previewer_generation < 0xffff_ffff_ffff_ffff,
    ensures
        down_effect(*old(app), *final(app)),
{
    let a = app.active_tab;
    let s = match app.tabs[a].selected {
        Some(s) => s,
        None => return,
    };
    let len = app.tabs[a].entries_filtered.len();
    let row = if len > 0 && s < len - 1 {
        s + 1
    } else {
        s
    };
    select_row(app, row);
}

/// Lists the active tab's working directory afresh from the first row and
/// records it in the history.
pub fn scroll_back(app: &mut App)
    requires
        old(app).wf(),
        old(app).next_generation < 0xffff_ffff_ffff_ffff,
        old(app).next_previewer_generation < 0xffff_ffff_ffff_ffff,
    ensures
        entered(*old(app), *final(app), old(app).active().current_working_directory),
        same_prompts(*old(app), *final(app)),
        final(app).next_previewer_generation <= old(app).next_previewer_generation + 1,
{
    let a = app.active_tab;
    let cwd = app.tabs[a].current_working_directory.clone();
    app.enter_directory(cwd);
}

/// Moves the active tab to its parent directory, when it has one.
pub(crate) fn leave_directory(app: &mut App)
    requires
        old(app).wf(),
        old(app).next_generation < 0xffff_ffff_ffff_ffff,
        old(app).next_previewer_generation < 0xffff_ffff_ffff_ffff,
    ensures
        parent_effect(*old(app), *final(app)),
        final(app).next_previewer_generation <= old(app).next_previewer_generation + 1,
{
    let a = app.active_tab;
    let mut cwd = app.tabs[a].current_working_directory.clone();
    if path_pop(&mut cwd) {
        let ghost target = cwd;
        app.tabs[a].current_working_directory = cwd;
        proof {
            lemma_wf_same_numbers(*old(app), *app);
        }
        let ghost moved = *app;
        scroll_back(app);
        proof {
            lemma_entered_from_moved(*old(app), moved, *app, target);
        }
    }
}

/// Walks the active tab up to the filesystem root (one step per component
/// of its path) and lists it from the first row.
pub fn scroll_home(app: &mut App)
    requires
        old(app).wf(),
        old(app).next_generation < 0xffff_ffff_ffff_ffff,
        old(app).next_previewer_generation < 0xffff_ffff_ffff_ffff,
    ensures
        home_effect(*old(app), *final(app)),
        final(app).next_previewer_generation <= old(app).next_previewer_generation + 1,
{
    let a = app.active_tab;
    let mut cwd = app.tabs[a].current_working_directory.clone();
    let n = path_component_count(cwd.as_str());
    let mut i: usize = 0;
    while i < n
        invariant
            i <= n,
            n == component_count(old(app).active().current_working_directory@),
            cwd@ == pop_times(old(app).active().current_working_directory@, i as nat),
        decreases n - i,
    {
        path_pop(&mut cwd);
        i = i + 1;
    }
    let ghost target = cwd;
    app.tabs[a].current_working_directory = cwd;
    proof {
        lemma_wf_same_numbers(*old(app), *app);
    }
    let ghost moved = *app;
    scroll_back(app);
    proof {
        lemma_entered_from_moved(*old(app), moved, *app, target);
    }
}

/// Enters the selected directory; does nothing when the selection is not
/// on a directory.
pub fn scroll_forward(app: &mut App)
    requires
        old(app).wf(),
        old(app).next_generation < 0xffff_ffff_ffff_ffff,
        old(app).next_previewer_generation < 0xffff_ffff_ffff_ffff,
    ensures
        forward_effect(*old(app), *final(app)),
        final(app).next_previewer_generation <= old(app).next_previewer_generation + 1,
{
    let a = app.active_tab;
    let name = match app.tabs[a].selected_artifact() {
        Some(e) => if e.artifact_type == ArtifactType::Directory {
            e.name.clone()
        } else {
            return ;
        },
        None => return ,
    };
    let target = path_join(app.tabs[a].current_working_directory.as_str(), name.as_str());
    let ghost t = target;
    app.tabs[a].current_working_directory = target;
    proof {
        lemma_wf_same_numbers(*old(app), *app);
    }
    let ghost moved = *app;
    scroll_back(app);
    proof {
        lemma_entered_from_moved(*old(app), moved, *app, t);
    }
}

/// Asks to open the selected entry with the system's default application
/// and reports it; does nothing without a selection.
pub fn handle_key_event_enter_mode(app: &mut App)
    requires
        old(app).wf(),
    ensures
        open_effect(*old(app), *final(app)),
{
    let a = app.active_tab;
    let (path, name) = match app.tabs[a].selected_artifact() {
        Some(e) => (e.path.clone(), e.name.clone()),
        None => return ,
    };
    app.requests.push(AppRequest::OpenFile { path });
    let mut s = String::new();
    push_chars(&mut s, "Opening ");
    push_chars(&mut s, name.as_str());
    app.status_message = s;
}

} // verus!
