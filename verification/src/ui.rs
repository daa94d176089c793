//! Text the screen shows: entry names, the key hints, the help text and
//! the status bar.

use vstd::prelude::*;
use crate::artifact::{Artifact, ArtifactType};
use crate::models::app::{App, AppState};
use crate::text::{decimal, push_chars, push_decimal};

verus! {

/// Preview pane presentation modes.
#[derive(Debug, Clone, Copy, PartialEq, Eq, Structural)]
pub enum PreviewWindowStates {
    View,
    Edit,
    Exit,
}

/// The name an entry is shown under: a directory's name ends in `/`.
pub open spec fn shown_name(a: Artifact) -> Seq<char> {
    if a.artifact_type == ArtifactType::Directory {
        a.name@.push('/')
    } else {
        a.name@
    }
}

/// The name `artifact` is shown under.
pub fn display_artifact_name(artifact: &Artifact) -> (r: String)
    ensures
        r@ == shown_name(*artifact),
{
    let mut s = artifact.name.clone();
    if artifact.artifact_type == ArtifactType::Directory {
        s.push('/');
    }
    s
}

/// The key hints of normal mode.
pub open spec fn key_hints_text() -> Seq<char> {
    "? help · / filter · Esc quit · q quit · y copy · d del"@
}

/// The key hints shown in normal mode.
pub fn get_key_hints() -> (r: &'static str)
    ensures
        r@ == key_hints_text(),
{
    "? help · / filter · Esc quit · q quit · y copy · d del"
}

/// The fixed part of the help text.
pub open spec fn help_head() -> Seq<char> {
    "Navigation\n  j/k, ↑/↓     move selection\n  l, Enter     open folder / file\n  h            parent directory\n  g            go to path\n  G            home\n  u / i        history back / forward\n  1-9          jump to bookmark\n  b            bookmark current folder\n\nView\n  /            filter by name\n  s            cycle sort (name/size/mtime)\n  .            toggle hidden files\n  p            refresh preview\n  P            toggle preview-on-move\n  t            cycle theme\n  r            refresh listing\n  ?            this help\n\nActions\n  y            copy path to clipboard\n  F2           rename\n  d            delete (confirm)\n  q, Esc       quit (Esc clears filter first)"@
}

/// The help lines listing the bookmarks from slot `from`: `  {slot}  {path}`
/// for each.
pub open spec fn bookmark_lines(bookmarks: Seq<Seq<char>>, from: nat) -> Seq<char>
    decreases bookmarks.len(),
{
    if bookmarks.len() == 0 {
        Seq::empty()
    } else {
        "\n  "@ + decimal(from) + "  "@ + bookmarks[0] + bookmark_lines(bookmarks.drop_first(), from + 1)
    }
}

/// The help text: the key reference, then, when there are bookmarks, a
/// `Bookmarks` section with one line per slot.
pub open spec fn help_text_of(bookmarks: Seq<Seq<char>>) -> Seq<char> {
    if bookmarks.len() == 0 {
        help_head()
    } else {
        help_head() + "\n\nBookmarks"@ + bookmark_lines(bookmarks, 1)
    }
}

/// The help overlay's text for the bookmarked directories `bookmarks`.
pub fn help_text(bookmarks: &Vec<String>) -> (r: String)
    requires
        bookmarks@.len() < 0xffff_ffff_ffff_ffff,
    ensures
        r@ == help_text_of(crate::text::views(bookmarks@)),
{
    let mut s = String::new();
    push_chars(&mut s, "Navigation\n  j/k, ↑/↓     move selection\n  l, Enter     open folder / file\n  h            parent directory\n  g            go to path\n  G            home\n  u / i        history back / forward\n  1-9          jump to bookmark\n  b            bookmark current folder\n\nView\n  /            filter by name\n  s            cycle sort (name/size/mtime)\n  .            toggle hidden files\n  p            refresh preview\n  P            toggle preview-on-move\n  t            cycle theme\n  r            refresh listing\n  ?            this help\n\nActions\n  y            copy path to clipboard\n  F2           rename\n  d            delete (confirm)\n  q, Esc       quit (Esc clears filter first)");
    if bookmarks.len() == 0 {
        return s;
    }
    push_chars(&mut s, "\n\nBookmarks");
    let ghost all = crate::text::views(bookmarks@);
    assert(all.skip(0) =~= all);
    assert(s@ =~= help_head() + "\n\nBookmarks"@);
    let mut i: usize = 0;
    while i < bookmarks.len()
        invariant
            i <= bookmarks@.len(),
            bookmarks@.len() < 0xffff_ffff_ffff_ffff,
            all == crate::text::views(bookmarks@),
            s@ + bookmark_lines(all.skip(i as int), (i + 1) as nat) == help_text_of(all),
        decreases bookmarks.len() - i,
    {
        let ghost before = s@;
        push_chars(&mut s, "\n  ");
        push_decimal(&mut s, (i + 1) as u64);
        push_chars(&mut s, "  ");
        push_chars(&mut s, bookmarks[i].as_str());
        proof {
            assert(all.skip(i as int).drop_first() =~= all.skip(i + 1));
            assert(all.skip(i as int)[0] == bookmarks@[i as int]@);
            assert(s@ + bookmark_lines(all.skip(i + 1), (i + 2) as nat) =~= before + bookmark_lines(
                all.skip(i as int),
                (i + 1) as nat,
            ));
        }
        i = i + 1;
    }
    proof {
        assert(all.skip(i as int).len() == 0);
        assert(s@ =~= s@ + bookmark_lines(all.skip(i as int), (i + 1) as nat));
    }
    s
}

/// The status bar's hints when nothing else is shown.
pub open spec fn default_status() -> Seq<char> {
    " w/s ↑↓ · a/d ⇆ · d enter· q quit "@
}

/// The status bar's text: the rename or go-to prompt with its text while
/// one is open, else the status line (when there is one) before the
/// default hints.
pub open spec fn status_bar_text_of(state: AppState, rename: Seq<char>, goto: Seq<char>, status: Seq<char>) -> Seq<char> {
    if state == AppState::Rename {
        " rename: "@ + rename + "▏ · Enter confirm · Esc cancel "@
    } else if state == AppState::GoTo {
        " go to: "@ + goto + "▏ · Enter go · Esc cancel "@
    } else if status.len() > 0 {
        " "@ + status + " · "@ + default_status() + " "@
    } else {
        default_status()
    }
}

/// The text of the status bar for `app`.
pub fn status_bar_text(app: &App) -> (r: String)
    ensures
        r@ == status_bar_text_of(app.state, app.rename_input@, app.goto_input@, app.status_message@),
{
    let mut s = String::new();
    if app.state == AppState::Rename {
        push_chars(&mut s, " rename: ");
        push_chars(&mut s, app.rename_input.as_str());
        push_chars(&mut s, "▏ · Enter confirm · Esc cancel ");
    } else if app.state == AppState::GoTo {
        push_chars(&mut s, " go to: ");
        push_chars(&mut s, app.goto_input.as_str());
        push_chars(&mut s, "▏ · Enter go · Esc cancel ");
    } else if !app.status_message.as_str().is_empty() {
        push_chars(&mut s, " ");
        push_chars(&mut s, app.status_message.as_str());
        push_chars(&mut s, " · ");
        push_chars(&mut s, " w/s ↑↓ · a/d ⇆ · d enter· q quit ");
        push_chars(&mut s, " ");
    } else {
        push_chars(&mut s, " w/s ↑↓ · a/d ⇆ · d enter· q quit ");
    }
    s
}

} // verus!
