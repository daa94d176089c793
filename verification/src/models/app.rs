//! The explorer: its tabs, the split view, the status line, the
//! configuration and the requests it hands to the surrounding program.
//!
//! Everything that needs the filesystem, a clipboard, a background task or a
//! child process is queued in `requests`; the program that runs the
//! explorer performs each request and reports back through the matching
//! `finish_*`/`apply_async_event`/`set_git_marks` call.

use vstd::prelude::*;
use crate::artifact::{Artifact, ArtifactListResult, ArtifactOptions, ArtifactSort, ArtifactType, clone_artifacts};
use crate::config::app::{AppConfig, Palette, Preview, Settings, Sort, Themes, theme_palette};
use crate::models::pane::{BrowserPane, clamped_row, filtered, first_row, listing_applied};
use crate::models::previewer::Previewer;
use crate::models::client::AsyncEvents;
use crate::errors::{error_text, error_text_of, RTVUIError};
use crate::pathops::{absolute_path, canonicalize, expand_tilde, home_dir, joined, path_exists, path_is_absolute, path_is_dir, path_join};
use crate::text::{has_char, decimal, push_chars, push_decimal, str_eq, trim, trimmed, views};

verus! {

/// The most tabs the explorer opens.
pub const MAX_TABS: usize = 9;

/// What the key handlers are doing.
#[derive(Debug, Clone, Copy, PartialEq, Eq, Structural)]
pub enum AppState {
    Active,
    Filter,
    Rename,
    GoTo,
    Confirm,
    Help,
    Quit,
}

impl Default for AppState {
    fn default() -> (r: Self)
        ensures
            r == AppState::Active,
    {
        AppState::Active
    }
}

/// Whether a transfer between panes copies or moves.
#[derive(Debug, Clone, Copy, PartialEq, Eq, Structural)]
pub enum TransferKind {
    Copy,
    Move,
}

/// Outside work the explorer asks the surrounding program to do.
#[derive(Debug)]
pub enum AppRequest {
    /// List `path` in the background; answer with a `BrowserDone` event
    /// carrying `generation`.
    List { path: String, generation: u64, options: ArtifactOptions },
    /// Read the beginning of the file at `path` in the background; answer
    /// with a `PreviewerDone` event carrying `generation`.
    PreviewFile { path: String, title: String, generation: u64 },
    /// List the folder at `path` in the background; answer with a
    /// `FolderPreviewDone` event carrying `generation`.
    PreviewFolder { path: String, title: String, generation: u64, options: ArtifactOptions },
    /// Read the git status of `path` and hand it to `set_git_marks(tab, ..)`.
    GitMarks { tab: usize, path: String },
    /// Write `config` to the configuration file.
    SaveConfig { config: AppConfig },
    /// Open `path` with the system's default application.
    OpenFile { path: String },
    /// Put `text` on the clipboard, then call `finish_copy_path`.
    Clipboard { text: String },
    /// Rename `from` to `to`, then call `finish_rename`.
    Rename { from: String, to: String, new_name: String },
    /// Delete each target (path, whether it is a directory), to the trash
    /// when `use_trash`, then call `finish_delete`.
    Delete { targets: Vec<(String, bool)>, use_trash: bool },
    /// Copy or move each (source, destination) pair (`skipped` more were
    /// left out because their destination exists), then call
    /// `finish_transfer`.
    Transfer { kind: TransferKind, items: Vec<(String, String)>, skipped: usize, peer: usize },
}

/// The explorer.
///
/// `next_generation` and `next_previewer_generation` count the listing and
/// preview requests issued so far; every request gets a fresh number, so a
/// late answer can only ever match the pane that asked for it.
#[derive(Debug)]
pub struct App {
    pub tabs: Vec<BrowserPane>,
    pub active_tab: usize,
    pub split_tab: Option<usize>,
    pub status_message: String,
    pub state: AppState,
    pub rename_input: String,
    pub goto_input: String,
    pub config: AppConfig,
    pub cache: Vec<(String, ArtifactListResult)>,
    pub pending_editor: Option<String>,
    pub requests: Vec<AppRequest>,
    pub next_generation: u64,
    pub next_previewer_generation: u64,
}

/// The listing options a configuration asks for.
pub open spec fn options_of(config: AppConfig) -> ArtifactOptions {
    ArtifactOptions {
        show_hidden: config.settings.show_hidden,
        sort: match config.settings.sort {
            Sort::Name => ArtifactSort::Name,
            Sort::Size => ArtifactSort::Size,
            Sort::Modified => ArtifactSort::Modified,
        },
    }
}

/// The cached listing of `path`, if any.
pub open spec fn cache_lookup(cache: Seq<(String, ArtifactListResult)>, path: Seq<char>) -> Option<ArtifactListResult>
    decreases cache.len(),
{
    if cache.len() == 0 {
        None
    } else if cache[0].0@ == path {
        Some(cache[0].1)
    } else {
        cache_lookup(cache.drop_first(), path)
    }
}

/// `Tab {a} / {n}`.
pub open spec fn tab_status(a: nat, n: nat) -> Seq<char> {
    "Tab "@ + decimal(a) + " / "@ + decimal(n)
}

/// The theme after `t` in the cycle Forest, Midnight, Solar, Mono.
pub open spec fn next_theme(t: Themes) -> Themes {
    match t {
        Themes::Forest => Themes::Midnight,
        Themes::Midnight => Themes::Solar,
        Themes::Solar => Themes::Mono,
        Themes::Mono => Themes::Forest,
    }
}

/// The listing order after `s` in the cycle name, size, modified.
pub open spec fn next_sort(s: Sort) -> Sort {
    match s {
        Sort::Name => Sort::Size,
        Sort::Size => Sort::Modified,
        Sort::Modified => Sort::Name,
    }
}

/// The preview setting after `p` in the cycle on move, always, never.
pub open spec fn next_preview(p: Preview) -> Preview {
    match p {
        Preview::OnMove => Preview::Always,
        Preview::Always => Preview::Never,
        Preview::Never => Preview::OnMove,
    }
}

/// The name of a preview setting.
pub open spec fn preview_name(p: Preview) -> Seq<char> {
    match p {
        Preview::OnMove => "OnMove"@,
        Preview::Always => "Always"@,
        Preview::Never => "Never"@,
    }
}

/// The tab after `a` among `n`, wrapping around.
pub open spec fn next_tab_index(a: int, n: int) -> int {
    (a + 1) % n
}

/// The tab before `a` among `n`, wrapping around.
pub open spec fn prev_tab_index(a: int, n: int) -> int {
    if a == 0 {
        n - 1
    } else {
        a - 1
    }
}

/// The first tab whose listing number is `g`, or -1.
pub open spec fn tab_with_generation(tabs: Seq<BrowserPane>, g: u64) -> int {
    if exists|i: int| 0 <= i < tabs.len() && tabs[i].generation == g {
        choose|i: int|
            0 <= i < tabs.len() && tabs[i].generation == g && forall|j: int|
                0 <= j < i ==> tabs[j].generation != g
    } else {
        -1
    }
}

/// The first tab whose preview number is `g`, or -1.
pub open spec fn tab_with_preview_generation(tabs: Seq<BrowserPane>, g: u64) -> int {
    if exists|i: int| 0 <= i < tabs.len() && tabs[i].previewer_generation == g {
        choose|i: int|
            0 <= i < tabs.len() && tabs[i].previewer_generation == g && forall|j: int|
                0 <= j < i ==> tabs[j].previewer_generation != g
    } else {
        -1
    }
}

/// `q` is tab `p` after a finished listing of `path` (entries `arts`,
/// partial or not) was applied to it.
pub open spec fn listing_done(p: BrowserPane, q: BrowserPane, path: String, arts: Seq<Artifact>, partial: bool) -> bool {
    &&& q.current_working_directory == path
    &&& q.artifacts@ == arts
    &&& q.entries_cache@ == arts
    &&& q.listing_partial == partial
    &&& p.filter_input@.len() == 0 ==> q.entries_filtered@ == arts && q.selected == clamped_row(
        p.selected,
        arts.len(),
    )
    &&& p.filter_input@.len() != 0 ==> q.entries_filtered@ == filtered(arts, p.filter_input@)
        && q.selected == Some(0usize)
    &&& q.filter_input == p.filter_input
    &&& q.history == p.history
    &&& q.history_index == p.history_index
    &&& q.generation == p.generation
    &&& q.marked == p.marked
}

/// The status line after a finished listing.
pub open spec fn listing_status(old_status: Seq<char>, error: Option<String>, partial: bool) -> Seq<char> {
    match error {
        Some(m) => "Error: "@ + m@,
        None => if partial {
            "Listing truncated at 50,000 entries"@
        } else {
            old_status
        },
    }
}

/// `b` is `a` after the active tab entered `path` and recorded `recorded`
/// in its history: the tab is on `path` with the first row selected, its
/// history is visited at `recorded`, and `path` is listed afresh.
pub open spec fn entered_as(a: App, b: App, path: String, recorded: String) -> bool {
    &&& b.wf()
    &&& b.tabs@.len() == a.tabs@.len()
    &&& forall|j: int| 0 <= j < a.tabs@.len() && j != a.active_tab ==> b.tabs@[j] == a.tabs@[j]
    &&& b.active().current_working_directory == path
    &&& b.active().history@ == crate::models::pane::history_after_visit(
        a.active().history@,
        a.active().history_index as int,
        recorded,
    )
    &&& b.next_generation == a.next_generation + 1
    &&& b.active().generation == b.next_generation
    &&& b.requests@.len() > a.requests@.len()
    &&& b.requests@.subrange(0, a.requests@.len() as int) == a.requests@
    &&& b.requests@.last() == AppRequest::List {
        path,
        generation: b.next_generation,
        options: options_of(a.config),
    }
    &&& same_settings_but_prompt(a, b)
}

/// `b` is `a` after the active tab entered `path`, recording in its history
/// the canonical form of `path` (or `path` itself), which the filesystem
/// decides.
pub open spec fn entered(a: App, b: App, path: String) -> bool {
    exists|c: String| entered_as(a, b, path, c)
}

/// Entering a directory stays entered when afterwards only the status line
/// or the go-to prompt's text change.
pub(crate) proof fn lemma_entered_as_status(a: App, b: App, c: App, path: String, recorded: String)
    requires
        entered_as(a, b, path, recorded),
        c == (App { status_message: c.status_message, goto_input: c.goto_input, ..b }),
    ensures
        entered_as(a, c, path, recorded),
{
}

/// Entering a directory stays entered when afterwards only the status line
/// or the go-to prompt's text change.
pub(crate) proof fn lemma_entered_status(a: App, b: App, c: App, path: String)
    requires
        entered(a, b, path),
        c == (App { status_message: c.status_message, goto_input: c.goto_input, ..b }),
    ensures
        entered(a, c, path),
{
    let w = choose|w: String| entered_as(a, b, path, w);
    lemma_entered_as_status(a, b, c, path, w);
}

/// `{verb} {ok} item(s) to other pane`, then ` · {skipped} skipped
/// (exists)` and ` · {failed} failed` where those are not zero.
pub open spec fn transfer_text(verb: Seq<char>, ok: nat, skipped: nat, failed: nat) -> Seq<char> {
    verb + " "@ + decimal(ok) + " item(s) to other pane"@ + (if skipped > 0 {
        " · "@ + decimal(skipped) + " skipped (exists)"@
    } else {
        Seq::empty()
    }) + (if failed > 0 {
        " · "@ + decimal(failed) + " failed"@
    } else {
        Seq::empty()
    })
}

/// The status line after deleting.
pub open spec fn delete_text(use_trash: bool, ok: nat, fail: nat) -> Seq<char> {
    if fail == 0 {
        if use_trash {
            "Moved "@ + decimal(ok) + " item(s) to trash"@
        } else {
            "Deleted "@ + decimal(ok) + " item(s)"@
        }
    } else {
        "Deleted "@ + decimal(ok) + ", failed "@ + decimal(fail)
    }
}

/// Whether a new name is refused for holding a path separator (or being
/// the parent link).
pub open spec fn bad_new_name(name: Seq<char>) -> bool {
    name.contains('/') || name.contains('\\') || name == ".."@
}

/// `b` is `a` after bookmarking `path` (see `App::bookmark_path`).
pub open spec fn bookmarked(a: App, b: App, path: String) -> bool {
            match views(a.config.cache.bookmarks@).index_of_first(path@) {
                Some(i) => {
                    &&& b.status_message@ == "Already bookmarked as "@ + decimal((i + 1) as nat)
                    &&& b.config == a.config
                    &&& b.requests == a.requests
                },
                None => {
                    let kept = if a.config.cache.bookmarks@.len() >= 9 {
                        views(a.config.cache.bookmarks@).drop_first()
                    } else {
                        views(a.config.cache.bookmarks@)
                    };
                    &&& views(b.config.cache.bookmarks@) == kept.push(path@)
                    &&& b.status_message@ == "Bookmarked as "@ + decimal(
                        b.config.cache.bookmarks@.len(),
                    )
                    &&& b.config.theme == a.config.theme
                    &&& b.config.settings == a.config.settings
                    &&& b.requests@.len() == a.requests@.len() + 1
                    &&& b.requests@.subrange(0, a.requests@.len() as int) == a.requests@
                    &&& b.requests@.last() matches AppRequest::SaveConfig { config }
                        && config.theme == b.config.theme && config.settings
                        == b.config.settings && config.cache.bookmarks@
                        == b.config.cache.bookmarks@
                },
            }
}

/// The split peer after the active tab `closed` is removed, leaving `len`
/// tabs with `active` active: a peer that was closed is dropped, a later
/// peer moves down one place, and a peer that ends up on the active tab (or
/// a single remaining tab) ends the split.
pub open spec fn split_after_close(split: Option<usize>, closed: int, len: int, active: int) -> Option<usize> {
    let moved: Option<usize> = match split {
        Some(p) => if p == closed {
            None
        } else if p > closed {
            Some((p - 1) as usize)
        } else {
            Some(p)
        },
        None => None,
    };
    if len < 2 || moved == Some(active as usize) {
        None
    } else {
        moved
    }
}

/// The requests `request_previewer` issues for the entry under the
/// selection.
pub open spec fn preview_requests(
    selected: Option<Artifact>,
    preview: Preview,
    generation: u64,
    options: ArtifactOptions,
) -> Seq<AppRequest> {
    match selected {
        None => Seq::empty(),
        Some(a) => if preview == Preview::Never {
            Seq::empty()
        } else if a.artifact_type == ArtifactType::File {
            seq![AppRequest::PreviewFile { path: a.path, title: a.name, generation }]
        } else {
            seq![AppRequest::PreviewFolder { path: a.path, title: a.name, generation, options }]
        },
    }
}

/// `b` is pane `a` with only its preview (content and generation) changed.
pub open spec fn same_pane_but_preview(a: BrowserPane, b: BrowserPane) -> bool {
    &&& b.current_working_directory == a.current_working_directory
    &&& b.artifacts == a.artifacts
    &&& b.selected == a.selected
    &&& b.filter_input == a.filter_input
    &&& b.entries_cache == a.entries_cache
    &&& b.entries_filtered == a.entries_filtered
    &&& b.history == a.history
    &&& b.history_index == a.history_index
    &&& b.generation == a.generation
    &&& b.listing_partial == a.listing_partial
    &&& b.marked == a.marked
    &&& b.git_marks == a.git_marks
}

/// `b` is `a` with only its tabs, requests, counters and status line
/// changed.
pub open spec fn same_app_settings(a: App, b: App) -> bool {
    &&& same_settings_but_prompt(a, b)
    &&& b.goto_input == a.goto_input
}

/// As `same_app_settings`, leaving the go-to prompt's text free.
pub open spec fn same_settings_but_prompt(a: App, b: App) -> bool {
    &&& b.active_tab == a.active_tab
    &&& b.split_tab == a.split_tab
    &&& b.state == a.state
    &&& b.rename_input == a.rename_input
    &&& b.config == a.config
    &&& b.cache == a.cache
    &&& b.pending_editor == a.pending_editor
}

/// A copy of the cached listing of `path`, if there is one.
fn cache_get(cache: &Vec<(String, ArtifactListResult)>, path: &String) -> (r: Option<ArtifactListResult>)
    ensures
        match cache_lookup(cache@, path@) {
            None => r is None,
            Some(c) => r matches Some(x) && x.artifacts@ == c.artifacts@ && x.partial == c.partial,
        },
{
    let mut i: usize = 0;
    assert(cache@.skip(0) =~= cache@);
    while i < cache.len()
        invariant
            i <= cache.len(),
            cache_lookup(cache@, path@) == cache_lookup(cache@.skip(i as int), path@),
        decreases cache.len() - i,
    {
        if cache[i].0 == *path {
            return Some(cache[i].1.clone());
        }
        assert(cache@.skip(i as int).drop_first() =~= cache@.skip(i + 1));
        i = i + 1;
    }
    None
}

/// Stores `value` as the cached listing of `key`, replacing an earlier
/// one.
fn cache_insert(cache: &mut Vec<(String, ArtifactListResult)>, key: String, value: ArtifactListResult)
    requires
        cache_keys_unique(old(cache)@),
    ensures
        cache_keys_unique(final(cache)@),
        cache_lookup(final(cache)@, key@) matches Some(c) && c.artifacts@ == value.artifacts@
            && c.partial == value.partial,
        forall|k: Seq<char>| k != key@ ==> cache_lookup(final(cache)@, k) == cache_lookup(old(cache)@, k),
{
    let mut i: usize = 0;
    while i < cache.len()
        invariant
            i <= cache.len(),
            cache@ == old(cache)@,
            cache_keys_unique(cache@),
            forall|j: int| 0 <= j < i ==> cache@[j].0@ != key@,
        decreases cache.len() - i,
    {
        if cache[i].0 == key {
            let ghost before = cache@;
            cache.set(i, (key, value));
            proof {
                lemma_cache_lookup_update(before, i as int, cache@[i as int]);
            }
            return;
        }
        i = i + 1;
    }
    let ghost before = cache@;
    cache.push((key, value));
    proof {
        lemma_cache_lookup_push(before, cache@.last());
    }
}

/// Looking up a path in a cache with unique paths finds the entry at the
/// position that holds it.
proof fn lemma_cache_lookup_at(cache: Seq<(String, ArtifactListResult)>, i: int)
    requires
        cache_keys_unique(cache),
        0 <= i < cache.len(),
    ensures
        cache_lookup(cache, cache[i].0@) == Some(cache[i].1),
    decreases cache.len(),
{
    if i > 0 {
        let rest = cache.drop_first();
        assert(rest[i - 1] == cache[i]);
        assert(cache[0].0@ != cache[i].0@);
        lemma_cache_lookup_at(rest, i - 1);
    }
}

/// A path absent from a cache is not found.
proof fn lemma_cache_lookup_absent(cache: Seq<(String, ArtifactListResult)>, k: Seq<char>)
    requires
        forall|j: int| 0 <= j < cache.len() ==> cache[j].0@ != k,
    ensures
        cache_lookup(cache, k) is None,
    decreases cache.len(),
{
    if cache.len() > 0 {
        lemma_cache_lookup_absent(cache.drop_first(), k);
    }
}

/// A path found in a cache is held at some position.
proof fn lemma_cache_lookup_found(cache: Seq<(String, ArtifactListResult)>, k: Seq<char>)
    requires
        cache_lookup(cache, k) is Some,
    ensures
        exists|j: int| 0 <= j < cache.len() && cache[j].0@ == k && cache_lookup(cache, k) == Some(cache[j].1),
    decreases cache.len(),
{
    if cache[0].0@ != k {
        lemma_cache_lookup_found(cache.drop_first(), k);
        let j = choose|j: int|
            0 <= j < cache.drop_first().len() && cache.drop_first()[j].0@ == k && cache_lookup(
                cache.drop_first(),
                k,
            ) == Some(cache.drop_first()[j].1);
        assert(cache[j + 1] == cache.drop_first()[j]);
    }
}

/// Replacing the entry at `i` by one with the same path changes only that
/// path's lookup.
proof fn lemma_cache_lookup_update(
    cache: Seq<(String, ArtifactListResult)>,
    i: int,
    e: (String, ArtifactListResult),
)
    requires
        cache_keys_unique(cache),
        0 <= i < cache.len(),
        e.0@ == cache[i].0@,
    ensures
        cache_keys_unique(cache.update(i, e)),
        cache_lookup(cache.update(i, e), e.0@) == Some(e.1),
        forall|k: Seq<char>| k != e.0@ ==> cache_lookup(cache.update(i, e), k) == cache_lookup(cache, k),
{
    let c2 = cache.update(i, e);
    assert(cache_keys_unique(c2)) by {
        assert forall|a: int, b: int| 0 <= a < c2.len() && 0 <= b < c2.len() && a != b implies #[trigger] c2[a].0@
            != #[trigger] c2[b].0@ by {
            assert(cache[a].0@ != cache[b].0@);
        }
    }
    lemma_cache_lookup_at(c2, i);
    assert forall|k: Seq<char>| k != e.0@ implies cache_lookup(c2, k) == cache_lookup(cache, k) by {
        lemma_cache_lookup_same(cache, c2, k);
    }
}

/// Two caches that agree on every entry holding `k` (and hold it at the
/// same places) agree on `k`'s lookup.
proof fn lemma_cache_lookup_same(a: Seq<(String, ArtifactListResult)>, b: Seq<(String, ArtifactListResult)>, k: Seq<char>)
    requires
        a.len() == b.len(),
        forall|j: int| 0 <= j < a.len() ==> (a[j].0@ == k <==> b[j].0@ == k),
        forall|j: int| 0 <= j < a.len() && a[j].0@ == k ==> a[j].1 == b[j].1,
    ensures
        cache_lookup(a, k) == cache_lookup(b, k),
    decreases a.len(),
{
    if a.len() > 0 {
        lemma_cache_lookup_same(a.drop_first(), b.drop_first(), k);
    }
}

/// Appending an entry with a new path adds just that path.
proof fn lemma_cache_lookup_push(cache: Seq<(String, ArtifactListResult)>, e: (String, ArtifactListResult))
    requires
        cache_keys_unique(cache),
        forall|j: int| 0 <= j < cache.len() ==> cache[j].0@ != e.0@,
    ensures
        cache_keys_unique(cache.push(e)),
        cache_lookup(cache.push(e), e.0@) == Some(e.1),
        forall|k: Seq<char>| k != e.0@ ==> cache_lookup(cache.push(e), k) == cache_lookup(cache, k),
    decreases cache.len(),
{
    let c2 = cache.push(e);
    assert(cache_keys_unique(c2)) by {
        assert forall|a: int, b: int| 0 <= a < c2.len() && 0 <= b < c2.len() && a != b implies #[trigger] c2[a].0@
            != #[trigger] c2[b].0@ by {
            if a < cache.len() && b < cache.len() {
                assert(cache[a].0@ != cache[b].0@);
            }
        }
    }
    lemma_cache_lookup_at(c2, cache.len() as int);
    if cache.len() > 0 {
        lemma_cache_lookup_push(cache.drop_first(), e);
        assert(c2.drop_first() =~= cache.drop_first().push(e));
        assert forall|k: Seq<char>| k != e.0@ implies cache_lookup(c2, k) == cache_lookup(cache, k) by {
            assert(c2[0] == cache[0]);
            if c2[0].0@ != k {
                assert(cache_lookup(c2, k) == cache_lookup(c2.drop_first(), k));
                assert(cache_lookup(cache.drop_first().push(e), k) == cache_lookup(cache.drop_first(), k));
                assert(cache_lookup(cache, k) == cache_lookup(cache.drop_first(), k));
            }
        }
    } else {
        assert forall|k: Seq<char>| k != e.0@ implies cache_lookup(c2, k) == cache_lookup(cache, k) by {
            assert(c2.drop_first().len() == 0);
            assert(cache_lookup(c2.drop_first(), k) is None);
        }
    }
}

/// The cache holds one entry per path.
pub open spec fn cache_keys_unique(cache: Seq<(String, ArtifactListResult)>) -> bool {
    forall|i: int, j: int|
        0 <= i < cache.len() && 0 <= j < cache.len() && i != j ==> #[trigger] cache[i].0@
            != #[trigger] cache[j].0@
}

/// Changing only the active tab keeps the explorer well-formed as long as
/// that tab stays well-formed and each of its request numbers is either
/// kept or fresh.
proof fn lemma_wf_active_change(a: App, b: App)
    requires
        a.wf(),
        b.active_tab == a.active_tab,
        b.split_tab == a.split_tab,
        cache_keys_unique(b.cache@),
        b.tabs@.len() == a.tabs@.len(),
        forall|i: int| 0 <= i < a.tabs@.len() && i != a.active_tab ==> b.tabs@[i] == a.tabs@[i],
        b.active().wf(),
        b.next_generation >= a.next_generation,
        b.next_previewer_generation >= a.next_previewer_generation,
        b.active().generation == a.active().generation || (b.active().generation
            == b.next_generation && b.next_generation > a.next_generation),
        b.active().previewer_generation == a.active().previewer_generation || (
        b.active().previewer_generation == b.next_previewer_generation
            && b.next_previewer_generation > a.next_previewer_generation),
    ensures
        b.wf(),
{
    let n = a.tabs@.len();
    let k = a.active_tab as int;
    assert(b.tabs@[k] == b.active());
    assert(a.tabs@[k] == a.active());
    assert forall|i: int| 0 <= i < n implies #[trigger] b.tabs@[i].wf() by {
        assert(a.tabs@[i].wf());
    }
    assert forall|i: int| 0 <= i < n implies #[trigger] b.tabs@[i].previewer_generation
        <= b.next_previewer_generation by {
        assert(a.tabs@[i].previewer_generation <= a.next_previewer_generation);
    }
    assert forall|i: int| 0 <= i < n implies #[trigger] b.tabs@[i].generation
        <= b.next_generation by {
        assert(a.tabs@[i].generation <= a.next_generation);
    }
    assert forall|i: int, j: int|
        0 <= i < n && 0 <= j < n && i != j && #[trigger] b.tabs@[i].previewer_generation != 0
            implies b.tabs@[i].previewer_generation != #[trigger] b.tabs@[j].previewer_generation by {
        assert(a.tabs@[i].previewer_generation <= a.next_previewer_generation);
        assert(a.tabs@[j].previewer_generation <= a.next_previewer_generation);
        if i != k && j != k {
            assert(a.tabs@[i].previewer_generation != a.tabs@[j].previewer_generation);
        } else if i == k && b.tabs@[i].previewer_generation == a.tabs@[i].previewer_generation {
            assert(a.tabs@[i].previewer_generation != a.tabs@[j].previewer_generation);
        } else if j == k && b.tabs@[j].previewer_generation == a.tabs@[j].previewer_generation {
            assert(a.tabs@[i].previewer_generation != 0);
            assert(a.tabs@[i].previewer_generation != a.tabs@[j].previewer_generation);
        }
    }
    assert forall|i: int, j: int|
        0 <= i < n && 0 <= j < n && i != j implies #[trigger] b.tabs@[i].generation
        != #[trigger] b.tabs@[j].generation by {
        assert(a.tabs@[i].generation <= a.next_generation);
        assert(a.tabs@[j].generation <= a.next_generation);
        assert(a.tabs@[i].generation != a.tabs@[j].generation);
    }
}

/// Changing tabs without touching any history or request number keeps the
/// explorer well-formed.
pub(crate) proof fn lemma_wf_same_numbers(a: App, b: App)
    requires
        a.wf(),
        b.tabs@.len() == a.tabs@.len(),
        b.active_tab == a.active_tab,
        b.split_tab == a.split_tab,
        cache_keys_unique(b.cache@),
        b.next_generation == a.next_generation,
        b.next_previewer_generation == a.next_previewer_generation,
        forall|i: int|
            #![trigger b.tabs@[i]]
            0 <= i < a.tabs@.len() ==> b.tabs@[i].history_index == a.tabs@[i].history_index
                && b.tabs@[i].history@.len() == a.tabs@[i].history@.len() && b.tabs@[i].generation
                == a.tabs@[i].generation && b.tabs@[i].previewer_generation
                == a.tabs@[i].previewer_generation,
    ensures
        b.wf(),
{
    let n = a.tabs@.len();
    assert forall|k: int| 0 <= k < n implies #[trigger] b.tabs@[k].wf() by {
        assert(a.tabs@[k].wf());
        assert(b.tabs@[k].history_index == a.tabs@[k].history_index);
    }
    assert forall|k: int, j: int|
        0 <= k < n && 0 <= j < n && k != j implies #[trigger] b.tabs@[k].generation
        != #[trigger] b.tabs@[j].generation by {
        assert(b.tabs@[k].generation == a.tabs@[k].generation);
        assert(b.tabs@[j].generation == a.tabs@[j].generation);
        assert(a.tabs@[k].generation != a.tabs@[j].generation);
    }
    assert forall|k: int, j: int|
        0 <= k < n && 0 <= j < n && k != j && #[trigger] b.tabs@[k].previewer_generation != 0
            implies b.tabs@[k].previewer_generation != #[trigger] b.tabs@[j].previewer_generation by {
        assert(b.tabs@[k].previewer_generation == a.tabs@[k].previewer_generation);
        assert(b.tabs@[j].previewer_generation == a.tabs@[j].previewer_generation);
        assert(a.tabs@[k].previewer_generation != a.tabs@[j].previewer_generation);
    }
    assert forall|k: int| 0 <= k < n implies #[trigger] b.tabs@[k].generation <= b.next_generation by {
        assert(b.tabs@[k].generation == a.tabs@[k].generation);
        assert(a.tabs@[k].generation <= a.next_generation);
    }
    assert forall|k: int| 0 <= k < n implies #[trigger] b.tabs@[k].previewer_generation <= b.next_previewer_generation by {
        assert(b.tabs@[k].previewer_generation == a.tabs@[k].previewer_generation);
        assert(a.tabs@[k].previewer_generation <= a.next_previewer_generation);
    }
}

/// `after` is `before` after `App::update_theme`.
pub open spec fn update_theme_effect(before: App, after: App) -> bool {
    after == (App {
        config: AppConfig { theme: next_theme(before.config.theme), ..before.config },
        ..before
    })
}

/// `after` is `before` after `App::cycle_sort`.
pub open spec fn cycle_sort_effect(before: App, after: App) -> bool {
    after == (App {
        config: AppConfig {
            settings: Settings { sort: next_sort(before.config.settings.sort), ..before.config.settings },
            ..before.config
        },
        ..before
    })
}

/// `after` is `before` after `App::refresh`.
pub open spec fn refresh_effect(before: App, after: App) -> bool {
    &&& (after.wf())
    &&& (after.cache@.len() == 0)
    &&& (after.next_generation == before.next_generation + 1)
    &&& (after.active().generation == after.next_generation)
    &&& (after.next_previewer_generation == before.next_previewer_generation)
    &&& (after.tabs@.len() == before.tabs@.len())
    &&& (forall|i: int|
            0 <= i < before.tabs@.len() && i != before.active_tab ==> after.tabs@[i]
                == before.tabs@[i])
    &&& (after.active().current_working_directory == before.active().current_working_directory)
    &&& (after.active().history == before.active().history)
    &&& (after.active().history_index == before.active().history_index)
    &&& (after.active().selected == before.active().selected)
    &&& (after.active().entries_filtered == before.active().entries_filtered)
    &&& (after.active().marked == before.active().marked)
    &&& (after.requests@ == before.requests@.push(
            AppRequest::List {
                path: before.active().current_working_directory,
                generation: after.next_generation,
                options: options_of(before.config),
            },
        ))
    &&& (after.active_tab == before.active_tab)
    &&& (after.split_tab == before.split_tab)
    &&& (after.state == before.state)
    &&& (after.config == before.config)
    &&& (after.status_message == before.status_message)
}

/// `after` is `before` after `App::filter`.
pub open spec fn filter_effect(before: App, after: App) -> bool {
    &&& (after.wf())
    &&& (after.active().entries_filtered@ == filtered(
            before.active().entries_cache@,
            before.active().filter_input@,
        ))
    &&& (after.active().selected == Some(0usize))
    &&& (after.active().current_working_directory == before.active().current_working_directory)
    &&& (after.active().filter_input == before.active().filter_input)
    &&& (after.active().entries_cache == before.active().entries_cache)
    &&& (after.tabs@.len() == before.tabs@.len())
    &&& (forall|i: int|
            0 <= i < before.tabs@.len() && i != before.active_tab ==> after.tabs@[i]
                == before.tabs@[i])
    &&& (after.requests@ == before.requests@ + preview_requests(
            after.active().selected_entry(),
            before.config.settings.preview,
            after.next_previewer_generation,
            options_of(before.config),
        ))
    &&& (after.next_generation == before.next_generation)
    &&& (after.next_previewer_generation == before.next_previewer_generation + 1)
    &&& (same_app_settings(before, after))
    &&& (after.status_message == before.status_message)
}

/// `after` is `before` after `App::new_tab`.
pub open spec fn new_tab_effect(before: App, after: App) -> bool {
    &&& (after.wf())
    &&& (before.tabs@.len() >= MAX_TABS ==> {
            &&& after.status_message@ == "Tab limit (9) reached"@
            &&& after.tabs == before.tabs
            &&& after.requests == before.requests
            &&& after.active_tab == before.active_tab
            &&& after.next_generation == before.next_generation
            &&& after.next_previewer_generation == before.next_previewer_generation
        })
    &&& (before.tabs@.len() < MAX_TABS ==> {
            let n = before.tabs@.len();
            let listing = match cache_lookup(
                before.cache@,
                before.active().current_working_directory@,
            ) {
                Some(c) => c.artifacts@,
                None => before.active().entries_cache@,
            };
            &&& after.tabs@.len() == n + 1
            &&& after.active_tab == n
            &&& forall|i: int| 0 <= i < n ==> after.tabs@[i] == before.tabs@[i]
            &&& after.active().current_working_directory@
                == before.active().current_working_directory@
            &&& views(after.active().history@) == seq![
                before.active().current_working_directory@,
            ]
            &&& after.active().entries_cache@ == listing
            &&& after.active().entries_filtered@ == listing
            &&& after.active().selected == first_row(listing.len())
            &&& after.active().filter_input@.len() == 0
            &&& after.active().marked@.len() == 0
            &&& after.active().generation == after.next_generation
            &&& after.next_generation == before.next_generation + 2
            &&& after.status_message@ == tab_status((n + 1) as nat, (n + 1) as nat)
            &&& after.requests@.len() > before.requests@.len() + 1
            &&& after.requests@.subrange(0, before.requests@.len() as int)
                == before.requests@
            &&& after.requests@[before.requests@.len() as int] == AppRequest::GitMarks {
                tab: n as usize,
                path: before.active().current_working_directory,
            }
            &&& after.requests@.last() == AppRequest::List {
                path: before.active().current_working_directory,
                generation: after.next_generation,
                options: options_of(before.config),
            }
        })
    &&& (after.split_tab == before.split_tab)
    &&& (after.state == before.state)
    &&& (after.config == before.config)
    &&& (after.cache == before.cache)
}

/// `after` is `before` after `App::close_tab`.
pub open spec fn close_tab_effect(before: App, after: App) -> bool {
    &&& (after.wf())
    &&& (before.tabs@.len() == 1 ==> {
            &&& after.status_message@ == "Cannot close the last tab"@
            &&& only_status_changed(before, after)
        })
    &&& (before.tabs@.len() > 1 ==> {
            let len = before.tabs@.len() - 1;
            let active = if before.active_tab < len {
                before.active_tab as int
            } else {
                len - 1
            };
            &&& after.tabs@ == before.tabs@.remove(before.active_tab as int)
            &&& after.active_tab == active
            &&& after.split_tab == split_after_close(
                before.split_tab,
                before.active_tab as int,
                len,
                active,
            )
            &&& after.status_message@ == tab_status((active + 1) as nat, len as nat)
        })
    &&& (after.requests == before.requests)
    &&& (after.state == before.state)
    &&& (after.config == before.config)
    &&& (after.cache == before.cache)
    &&& (after.next_generation == before.next_generation)
    &&& (after.next_previewer_generation == before.next_previewer_generation)
}

/// `after` is `before` after `App::next_tab`.
pub open spec fn next_tab_effect(before: App, after: App) -> bool {
    &&& (after.wf())
    &&& (before.tabs@.len() < 2 ==> after == before)
    &&& (before.tabs@.len() >= 2 ==> {
            &&& after.active_tab == next_tab_index(
                before.active_tab as int,
                before.tabs@.len() as int,
            )
            &&& after.status_message@ == tab_status(
                (after.active_tab + 1) as nat,
                before.tabs@.len(),
            )
            &&& after.next_previewer_generation == before.next_previewer_generation + 1
            &&& after.active().previewer_generation == after.next_previewer_generation
            &&& after.requests@ == before.requests@ + preview_requests(
                after.active().selected_entry(),
                before.config.settings.preview,
                after.next_previewer_generation,
                options_of(before.config),
            )
            &&& after.tabs@.len() == before.tabs@.len()
            &&& forall|i: int|
                0 <= i < before.tabs@.len() && i != after.active_tab ==> after.tabs@[i]
                    == before.tabs@[i]
            &&& same_pane_but_preview(
                before.tabs@[after.active_tab as int],
                after.active(),
            )
        })
    &&& (after.split_tab == before.split_tab)
    &&& (after.state == before.state)
    &&& (after.config == before.config)
    &&& (after.cache == before.cache)
    &&& (after.next_generation == before.next_generation)
}

/// `after` is `before` after `App::prev_tab`.
pub open spec fn prev_tab_effect(before: App, after: App) -> bool {
    &&& (after.wf())
    &&& (before.tabs@.len() < 2 ==> after == before)
    &&& (before.tabs@.len() >= 2 ==> {
            &&& after.active_tab == prev_tab_index(
                before.active_tab as int,
                before.tabs@.len() as int,
            )
            &&& after.status_message@ == tab_status(
                (after.active_tab + 1) as nat,
                before.tabs@.len(),
            )
            &&& after.next_previewer_generation == before.next_previewer_generation + 1
            &&& after.active().previewer_generation == after.next_previewer_generation
            &&& after.requests@ == before.requests@ + preview_requests(
                after.active().selected_entry(),
                before.config.settings.preview,
                after.next_previewer_generation,
                options_of(before.config),
            )
            &&& after.tabs@.len() == before.tabs@.len()
            &&& forall|i: int|
                0 <= i < before.tabs@.len() && i != after.active_tab ==> after.tabs@[i]
                    == before.tabs@[i]
            &&& same_pane_but_preview(
                before.tabs@[after.active_tab as int],
                after.active(),
            )
        })
    &&& (after.split_tab == before.split_tab)
    &&& (after.state == before.state)
    &&& (after.config == before.config)
    &&& (after.cache == before.cache)
    &&& (after.next_generation == before.next_generation)
}

/// `after` is `before` after `App::toggle_split`.
pub open spec fn toggle_split_effect(before: App, after: App) -> bool {
    &&& (after.wf())
    &&& (before.split_tab is Some ==> {
            &&& after.split_tab is None
            &&& after.status_message@ == "Split off"@
            &&& after.tabs == before.tabs
            &&& after.active_tab == before.active_tab
            &&& after.requests == before.requests
        })
    &&& (before.split_tab is None && before.tabs@.len() >= 2 ==> {
            &&& after.split_tab == Some(
                (if before.active_tab + 1 < before.tabs@.len() {
                    before.active_tab + 1
                } else {
                    0
                }) as usize,
            )
            &&& after.status_message@ == "Split on · Tab focuses panes"@
            &&& after.tabs == before.tabs
            &&& after.active_tab == before.active_tab
            &&& after.requests == before.requests
        })
    &&& (before.split_tab is None && before.tabs@.len() < 2 ==> {
            &&& after.tabs@.len() == 2
            &&& after.active_tab == 1
            &&& after.split_tab == Some(0usize)
            &&& after.status_message@ == "Split on · Tab focuses panes"@
            &&& after.tabs@[0] == before.tabs@[0]
            &&& after.tabs@[1].current_working_directory@
                == before.active().current_working_directory@
        })
    &&& (after.state == before.state)
    &&& (after.config == before.config)
    &&& (after.cache == before.cache)
}

/// `after` is `before` after `App::focus_other_pane`.
pub open spec fn focus_other_pane_effect(before: App, after: App) -> bool {
    &&& (after.wf())
    &&& (before.split_tab matches Some(peer) ==> {
            &&& after.active_tab == peer
            &&& after.split_tab == Some(before.active_tab)
            &&& after.status_message@ == "Focus tab "@ + decimal((peer + 1) as nat)
            &&& after.next_previewer_generation == before.next_previewer_generation + 1
            &&& after.requests@ == before.requests@ + preview_requests(
                after.active().selected_entry(),
                before.config.settings.preview,
                after.next_previewer_generation,
                options_of(before.config),
            )
            &&& after.tabs@.len() == before.tabs@.len()
            &&& forall|i: int|
                0 <= i < before.tabs@.len() && i != peer ==> after.tabs@[i]
                    == before.tabs@[i]
            &&& same_pane_but_preview(before.tabs@[peer as int], after.active())
        })
    &&& (before.split_tab is None ==> after.split_tab is None && (before.tabs@.len()
            < 2 ==> after == before) && (before.tabs@.len() >= 2
            ==> after.active_tab == next_tab_index(
            before.active_tab as int,
            before.tabs@.len() as int,
        )))
    &&& (after.state == before.state)
    &&& (after.config == before.config)
    &&& (after.cache == before.cache)
    &&& (after.next_generation == before.next_generation)
}

/// `after` is `before` after `App::cycle_preview`.
pub open spec fn cycle_preview_effect(before: App, after: App) -> bool {
    &&& (after.wf())
    &&& (after.config.settings.preview == next_preview(before.config.settings.preview))
    &&& (after.config.settings.sort == before.config.settings.sort)
    &&& (after.config.settings.show_hidden == before.config.settings.show_hidden)
    &&& (after.config.settings.enable_trash == before.config.settings.enable_trash)
    &&& (after.config.theme == before.config.theme)
    &&& (after.config.cache == before.config.cache)
    &&& (after.status_message@ == "Preview: "@ + preview_name(after.config.settings.preview))
    &&& (after.requests@.len() >= before.requests@.len() + 1)
    &&& (after.requests@[before.requests@.len() as int] matches AppRequest::SaveConfig { config }
            && config.theme == after.config.theme && config.settings == after.config.settings
            && config.cache.bookmarks@ == after.config.cache.bookmarks@)
    &&& (after.requests@ == before.requests@.push(
            after.requests@[before.requests@.len() as int],
        ) + preview_requests(
            after.active().selected_entry(),
            after.config.settings.preview,
            after.next_previewer_generation,
            options_of(after.config),
        ))
    &&& (after.next_previewer_generation == before.next_previewer_generation + 1)
    &&& (after.next_generation == before.next_generation)
    &&& (after.tabs@.len() == before.tabs@.len())
    &&& (after.active_tab == before.active_tab)
    &&& (after.split_tab == before.split_tab)
    &&& (same_pane_but_preview(before.active(), after.active()))
}

/// `after` is `before` after `App::history_back`.
pub open spec fn history_back_effect(before: App, after: App) -> bool {
    &&& (after.wf())
    &&& (after.next_generation <= before.next_generation + 1)
    &&& (after.next_previewer_generation <= before.next_previewer_generation + 1)
    &&& (before.active().history_index == 0 ==> {
            &&& after.status_message@ == "History: at oldest"@
            &&& after.tabs == before.tabs
            &&& after.requests == before.requests
            &&& after.next_generation == before.next_generation
        })
    &&& (before.active().history_index > 0 ==> {
            &&& after.active().history_index == before.active().history_index - 1
            &&& after.active().history == before.active().history
            &&& after.active().current_working_directory
                == before.active().history@[before.active().history_index - 1]
            &&& after.status_message@ == "History: back"@
            &&& after.next_generation == before.next_generation + 1
            &&& after.active().generation == after.next_generation
            &&& after.requests@.last() == AppRequest::List {
                path: after.active().current_working_directory,
                generation: after.next_generation,
                options: options_of(before.config),
            }
        })
    &&& (after.tabs@.len() == before.tabs@.len())
    &&& (forall|i: int|
            0 <= i < before.tabs@.len() && i != before.active_tab ==> after.tabs@[i]
                == before.tabs@[i])
    &&& (same_app_settings(before, after))
}

/// `after` is `before` after `App::history_forward`.
pub open spec fn history_forward_effect(before: App, after: App) -> bool {
    &&& (after.wf())
    &&& (after.next_generation <= before.next_generation + 1)
    &&& (after.next_previewer_generation <= before.next_previewer_generation + 1)
    &&& (before.active().history_index + 1 >= before.active().history@.len() ==> {
            &&& after.status_message@ == "History: at newest"@
            &&& after.tabs == before.tabs
            &&& after.requests == before.requests
            &&& after.next_generation == before.next_generation
        })
    &&& (before.active().history_index + 1 < before.active().history@.len() ==> {
            &&& after.active().history_index == before.active().history_index + 1
            &&& after.active().history == before.active().history
            &&& after.active().current_working_directory
                == before.active().history@[before.active().history_index + 1]
            &&& after.status_message@ == "History: forward"@
            &&& after.next_generation == before.next_generation + 1
            &&& after.active().generation == after.next_generation
            &&& after.requests@.last() == AppRequest::List {
                path: after.active().current_working_directory,
                generation: after.next_generation,
                options: options_of(before.config),
            }
        })
    &&& (after.tabs@.len() == before.tabs@.len())
    &&& (forall|i: int|
            0 <= i < before.tabs@.len() && i != before.active_tab ==> after.tabs@[i]
                == before.tabs@[i])
    &&& (same_app_settings(before, after))
}

/// `after` is `before` after `App::toggle_mark`.
pub open spec fn toggle_mark_effect(before: App, after: App) -> bool {
    &&& (after.wf())
    &&& (after.tabs@.len() == before.tabs@.len())
    &&& (forall|j: int| 0 <= j < before.tabs@.len() && j != before.active_tab ==> after.tabs@[j] == before.tabs@[j])
    &&& (match before.active().selected_entry() {
            None => after.active().marked == before.active().marked,
            Some(a) => if views(before.active().marked@).contains(a.path@) {
                exists|i: int|
                    0 <= i < before.active().marked@.len() && views(before.active().marked@)[i] == a.path@
                        && (forall|j: int| 0 <= j < i ==> views(before.active().marked@)[j] != a.path@)
                        && views(after.active().marked@) == views(before.active().marked@).remove(i)
            } else {
                views(after.active().marked@) == views(before.active().marked@).push(a.path@)
            },
        })
    &&& (after.active().selected == before.active().selected)
    &&& (after.active().current_working_directory == before.active().current_working_directory)
    &&& (after.status_message@ == "Marked: "@ + decimal(after.active().marked@.len()))
    &&& (after.requests == before.requests)
    &&& (same_app_settings(before, after))
    &&& (after.next_generation == before.next_generation)
    &&& (after.next_previewer_generation == before.next_previewer_generation)
}

/// `after` is `before` after `App::clear_marks`.
pub open spec fn clear_marks_effect(before: App, after: App) -> bool {
    &&& (after.wf())
    &&& (after.tabs@.len() == before.tabs@.len())
    &&& (forall|j: int| 0 <= j < before.tabs@.len() && j != before.active_tab ==> after.tabs@[j] == before.tabs@[j])
    &&& (after.active().marked@.len() == 0)
    &&& (after.active().selected == before.active().selected)
    &&& (after.active().current_working_directory == before.active().current_working_directory)
    &&& (after.status_message@ == "Marks cleared"@)
    &&& (after.requests == before.requests)
    &&& (same_app_settings(before, after))
    &&& (after.next_generation == before.next_generation)
    &&& (after.next_previewer_generation == before.next_previewer_generation)
}

/// `after` is `before` after `App::open_in_editor`.
pub open spec fn open_in_editor_effect(before: App, after: App) -> bool {
    &&& (match before.active().selected_entry() {
            None => after.status_message@ == "Editor: nothing selected"@
                && after.pending_editor == before.pending_editor,
            Some(a) => if a.artifact_type != ArtifactType::File {
                after.status_message@ == "Editor: select a file"@
                    && after.pending_editor == before.pending_editor
            } else {
                after.pending_editor == Some(a.path) && after.status_message
                    == before.status_message
            },
        })
    &&& (after.tabs == before.tabs)
    &&& (after.requests == before.requests)
    &&& (after.active_tab == before.active_tab)
    &&& (after.split_tab == before.split_tab)
    &&& (after.config == before.config)
    &&& (after.state == before.state)
    &&& (after.cache == before.cache)
    &&& (after.next_generation == before.next_generation)
    &&& (after.next_previewer_generation == before.next_previewer_generation)
}

/// `after` is `before` after `App::begin_rename` returned `r`.
pub open spec fn begin_rename_effect(before: App, after: App, r: AppState) -> bool {
    &&& (match before.active().selected_entry() {
            Some(a) => r == AppState::Rename && after.rename_input@ == a.name@,
            None => r == AppState::Active && after.rename_input == before.rename_input,
        })
    &&& (after.tabs == before.tabs)
    &&& (after.requests == before.requests)
    &&& (after.status_message == before.status_message)
    &&& (after.goto_input == before.goto_input)
    &&& (after.active_tab == before.active_tab)
    &&& (after.split_tab == before.split_tab)
    &&& (after.config == before.config)
    &&& (after.state == before.state)
    &&& (after.cache == before.cache)
    &&& (after.next_generation == before.next_generation)
    &&& (after.next_previewer_generation == before.next_previewer_generation)
}

/// `after` is `before` after `App::begin_goto` returned `r`.
pub open spec fn begin_goto_effect(before: App, after: App, r: AppState) -> bool {
    &&& (r == AppState::GoTo)
    &&& (after.goto_input@.len() == 0)
    &&& (after.tabs == before.tabs)
    &&& (after.requests == before.requests)
    &&& (after.status_message == before.status_message)
    &&& (after.rename_input == before.rename_input)
    &&& (after.active_tab == before.active_tab)
    &&& (after.split_tab == before.split_tab)
    &&& (after.config == before.config)
    &&& (after.state == before.state)
    &&& (after.cache == before.cache)
    &&& (after.next_generation == before.next_generation)
    &&& (after.next_previewer_generation == before.next_previewer_generation)
}

/// `b` is `a` with only its status line changed.
pub open spec fn only_status_changed(a: App, b: App) -> bool {
    b == (App { status_message: b.status_message, ..a })
}

/// `after` is `before` after `App::home_resolved(home, canonical)`: without
/// a home directory only the status line changes; otherwise the active tab
/// enters the home directory's canonical form (or the home directory) and
/// records it in its history.
pub open spec fn home_resolved_effect(before: App, after: App, home: Option<String>, canonical: Option<String>) -> bool {
    match home {
        None => {
            &&& after.status_message@ == "Home directory unavailable"@
            &&& only_status_changed(before, after)
        },
        Some(h) => {
            let p = match canonical {
                Some(c) => c,
                None => h,
            };
            &&& entered_as(before, after, p, p)
            &&& after.status_message == before.status_message
            &&& after.goto_input == before.goto_input
        },
    }
}

/// `after` is `before` after `App::jump_home`: as `home_resolved` for the
/// home directory the system reports and its canonical form, which the
/// environment and the filesystem decide.
pub open spec fn jump_home_effect(before: App, after: App) -> bool {
    &&& after.wf()
    &&& exists|h: Option<String>, c: Option<String>| home_resolved_effect(before, after, h, c)
}

/// `after` is `before` after `App::bookmark_resolved(canonical)`: the
/// active tab's directory is bookmarked as its canonical form `canonical`,
/// or as it is when there is none.
pub open spec fn bookmark_resolved_effect(before: App, after: App, canonical: Option<String>) -> bool {
    &&& (after.wf())
    &&& (after.tabs == before.tabs)
    &&& (after.active_tab == before.active_tab)
    &&& (after.split_tab == before.split_tab)
    &&& (after.state == before.state)
    &&& (after.cache == before.cache)
    &&& (after.rename_input == before.rename_input)
    &&& (after.goto_input == before.goto_input)
    &&& (after.pending_editor == before.pending_editor)
    &&& (after.next_generation == before.next_generation)
    &&& (after.next_previewer_generation == before.next_previewer_generation)
    &&& bookmarked(
        before,
        after,
        match canonical {
            Some(c) => c,
            None => before.active().current_working_directory,
        },
    )
}

/// `after` is `before` after `App::bookmark_cwd`: as `bookmark_resolved`
/// for the canonical form the filesystem gives.
pub open spec fn bookmark_cwd_effect(before: App, after: App) -> bool {
    &&& after.wf()
    &&& exists|c: Option<String>| bookmark_resolved_effect(before, after, c)
}

/// `after` is `before` after `App::jump_resolved(slot, resolved, is_dir)`
/// for a filled slot: when the bookmark resolved to a directory the active
/// tab enters it; otherwise only the status line changes, reporting the
/// bookmark missing.
pub open spec fn jump_resolved_effect(
    before: App,
    after: App,
    slot: usize,
    resolved: Option<String>,
    is_dir: bool,
) -> bool {
    if resolved is Some && is_dir {
        &&& entered_as(before, after, resolved->0, resolved->0)
        &&& after.status_message@ == "Jumped to bookmark "@ + decimal(slot as nat)
        &&& after.goto_input == before.goto_input
    } else {
        &&& after.status_message@ == "Bookmark "@ + decimal(slot as nat) + " missing: "@
            + before.config.cache.bookmarks@[slot - 1]@
        &&& only_status_changed(before, after)
    }
}

/// `after` is `before` after `App::jump_to_bookmark(slot)`.
pub open spec fn jump_to_bookmark_effect(before: App, after: App, slot: usize) -> bool {
    &&& after.wf()
    &&& (!(1 <= slot <= 9) ==> after == before)
    &&& (1 <= slot <= 9 && slot > before.config.cache.bookmarks@.len() ==> {
            &&& after.status_message@ == "No bookmark in slot "@ + decimal(slot as nat)
            &&& only_status_changed(before, after)
        })
    &&& (1 <= slot <= 9 && slot <= before.config.cache.bookmarks@.len() ==> exists|
        r: Option<String>,
        d: bool,
    | jump_resolved_effect(before, after, slot, r, d))
}

/// The path the go-to prompt's text names once `~` is expanded
/// (`expanded`): itself when absolute, else joined to the directory `cwd`.
pub open spec fn goto_target(cwd: Seq<char>, expanded: Seq<char>) -> Seq<char> {
    if absolute_path(expanded) {
        expanded
    } else {
        joined(cwd, expanded)
    }
}

/// `after` is `before` after `App::goto_resolved(raw, resolved, is_dir)`
/// returned `r`: a path that did not resolve is reported not found, one
/// that is no directory is reported so (only the status line changes, the
/// prompt stays); a directory is entered, recorded in the history, and the
/// prompt and the status line are cleared.
pub open spec fn goto_resolved_effect(
    before: App,
    after: App,
    raw: Seq<char>,
    resolved: Option<String>,
    is_dir: bool,
    r: AppState,
) -> bool {
    match resolved {
        None => {
            &&& r == AppState::GoTo
            &&& after.status_message@ == "Go to failed: "@ + raw + " not found"@
            &&& only_status_changed(before, after)
        },
        Some(p) => if is_dir {
            &&& r == AppState::Active
            &&& entered_as(before, after, p, p)
            &&& after.goto_input@.len() == 0
            &&& after.status_message@.len() == 0
        } else {
            &&& r == AppState::GoTo
            &&& after.status_message@ == "Go to failed: "@ + raw + " is not a directory"@
            &&& only_status_changed(before, after)
        },
    }
}

/// `after` is `before` after `App::commit_goto` returned `r`: an empty
/// prompt asks for a path; otherwise as `goto_resolved` for the trimmed
/// text and what the filesystem answers for its target.
pub open spec fn commit_goto_effect(before: App, after: App, r: AppState) -> bool {
    &&& after.wf()
    &&& (trimmed(before.goto_input@).len() == 0 ==> {
            &&& r == AppState::GoTo
            &&& after.status_message@ == "Go to: enter a path"@
            &&& only_status_changed(before, after)
        })
    &&& (trimmed(before.goto_input@).len() != 0 ==> exists|res: Option<String>, d: bool|
        goto_resolved_effect(before, after, trimmed(before.goto_input@), res, d, r))
}

/// The path a rename of the selection to the trimmed prompt text would
/// create, when the text is a new, valid name: it is then joined to the
/// active tab's directory.
pub open spec fn rename_target_of(a: App) -> Option<Seq<char>> {
    match a.active().selected_entry() {
        None => None,
        Some(e) => {
            let name = trimmed(a.rename_input@);
            if name.len() == 0 || name == e.name@ || bad_new_name(name) {
                None
            } else {
                Some(joined(a.active().current_working_directory@, name))
            }
        },
    }
}

/// `after` is `before` after `App::rename_probed(exists)`, where `exists`
/// answers whether the target path is taken: an empty or unchanged name
/// (or no selection) changes nothing; a name with a separator is refused;
/// a taken target is reported; otherwise the rename is requested.
pub open spec fn rename_probed_effect(before: App, after: App, exists: bool) -> bool {
    match before.active().selected_entry() {
        None => after == before,
        Some(a) => {
            let name = trimmed(before.rename_input@);
            if name.len() == 0 || name == a.name@ {
                after == before
            } else if bad_new_name(name) {
                &&& after.status_message@ == "Rename failed: name cannot contain a path separator"@
                &&& only_status_changed(before, after)
            } else if exists {
                &&& after.status_message@ == "Rename failed: "@ + name + " already exists"@
                &&& only_status_changed(before, after)
            } else {
                &&& after == (App { requests: after.requests, ..before })
                &&& after.requests@.len() == before.requests@.len() + 1
                &&& after.requests@.subrange(0, before.requests@.len() as int) == before.requests@
                &&& after.requests@.last() matches AppRequest::Rename { from, to, new_name }
                    && from == a.path && to@ == joined(
                    before.active().current_working_directory@,
                    name,
                ) && new_name@ == name
            }
        },
    }
}

/// `after` is `before` after `App::commit_rename`: as `rename_probed` with
/// the filesystem's answer on whether the target is taken.
pub open spec fn commit_rename_effect(before: App, after: App) -> bool {
    &&& after.wf()
    &&& exists|e: bool| rename_probed_effect(before, after, e)
}

impl App {
    /// The explorer's well-formedness: one to `MAX_TABS` well-formed tabs,
    /// the active tab and the split peer among them, every tab
    /// with its own listing generation at most the counter, every preview
    /// generation in use by at most one tab and at most the counter, and
    /// one cache entry per path.
    pub open spec fn wf(&self) -> bool {
        &&& 1 <= self.tabs@.len() <= MAX_TABS
        &&& self.active_tab < self.tabs@.len()
        &&& (self.split_tab matches Some(p) ==> p < self.tabs@.len())
        &&& forall|i: int| 0 <= i < self.tabs@.len() ==> #[trigger] self.tabs@[i].wf()
        &&& forall|i: int|
            0 <= i < self.tabs@.len() ==> #[trigger] self.tabs@[i].generation <= self.next_generation
        &&& forall|i: int, j: int|
            0 <= i < self.tabs@.len() && 0 <= j < self.tabs@.len() && i != j
                ==> #[trigger] self.tabs@[i].generation != #[trigger] self.tabs@[j].generation
        &&& forall|i: int|
            0 <= i < self.tabs@.len() ==> #[trigger] self.tabs@[i].previewer_generation
                <= self.next_previewer_generation
        &&& forall|i: int, j: int|
            0 <= i < self.tabs@.len() && 0 <= j < self.tabs@.len() && i != j
                && #[trigger] self.tabs@[i].previewer_generation != 0
                ==> self.tabs@[i].previewer_generation != #[trigger] self.tabs@[j].previewer_generation
        &&& cache_keys_unique(self.cache@)
    }

    /// Room for a few more request numbers.
    pub open spec fn headroom(&self) -> bool {
        &&& self.next_generation < 0xffff_ffff_ffff_ff00
        &&& self.next_previewer_generation < 0xffff_ffff_ffff_ff00
    }

    /// Whether the request counters have room for another operation.
    pub fn has_headroom(&self) -> (r: bool)
        ensures
            r == self.headroom(),
    {
        self.next_generation < 0xffff_ffff_ffff_ff00 && self.next_previewer_generation
            < 0xffff_ffff_ffff_ff00
    }

    /// The active tab.
    pub open spec fn active(&self) -> BrowserPane {
        self.tabs@[self.active_tab as int]
    }

    /// The listing options of the configuration.
    pub fn get_artifact_options(config: &AppConfig) -> (r: ArtifactOptions)
        ensures
            r == options_of(*config),
    {
        let sort = match config.settings.sort {
            Sort::Name => ArtifactSort::Name,
            Sort::Size => ArtifactSort::Size,
            Sort::Modified => ArtifactSort::Modified,
        };
        ArtifactOptions { show_hidden: config.settings.show_hidden, sort }
    }

    /// Advances the theme: Forest, Midnight, Solar, Mono, and back.
    pub fn update_theme(&mut self)
        ensures
            update_theme_effect(*old(self), *final(self)),
    {
        match self.config.theme {
            Themes::Forest => self.config.theme = Themes::Midnight,
            Themes::Midnight => self.config.theme = Themes::Solar,
            Themes::Solar => self.config.theme = Themes::Mono,
            Themes::Mono => self.config.theme = Themes::Forest,
        }
    }

    /// Advances the listing order: name, size, modified, and back.
    pub fn cycle_sort(&mut self)
        ensures
            cycle_sort_effect(*old(self), *final(self)),
    {
        self.config.settings.sort = match self.config.settings.sort {
            Sort::Name => Sort::Size,
            Sort::Size => Sort::Modified,
            Sort::Modified => Sort::Name,
        };
    }

    /// Asks for a preview of the selected entry in the active tab under a
    /// fresh preview number: the file's text for a file, the folder's
    /// entries otherwise. With no selection, or previews turned off, the
    /// side pane is cleared instead.
    pub fn request_previewer(&mut self)
        requires
            old(self).wf(),
            old(self).next_previewer_generation < 0xffff_ffff_ffff_ffff,
        ensures
            final(self).wf(),
            final(self).next_previewer_generation == old(self).next_previewer_generation + 1,
            final(self).next_generation == old(self).next_generation,
            final(self).tabs@.len() == old(self).tabs@.len(),
            forall|i: int|
                0 <= i < old(self).tabs@.len() && i != old(self).active_tab ==> final(self).tabs@[i]
                    == old(self).tabs@[i],
            same_pane_but_preview(old(self).active(), final(self).active()),
            final(self).active().previewer_generation == final(self).next_previewer_generation,
            final(self).requests@ == old(self).requests@ + preview_requests(
                old(self).active().selected_entry(),
                old(self).config.settings.preview,
                final(self).next_previewer_generation,
                options_of(old(self).config),
            ),
            preview_requests(
                old(self).active().selected_entry(),
                old(self).config.settings.preview,
                final(self).next_previewer_generation,
                options_of(old(self).config),
            ).len() == 0 ==> final(self).active().previewer == Previewer::Empty,
            preview_requests(
                old(self).active().selected_entry(),
                old(self).config.settings.preview,
                final(self).next_previewer_generation,
                options_of(old(self).config),
            ).len() != 0 ==> final(self).active().previewer == old(self).active().previewer,
            same_app_settings(*old(self), *final(self)),
            final(self).status_message == old(self).status_message,
    {
        let preview = self.config.settings.preview;
        let options = Self::get_artifact_options(&self.config);
        self.next_previewer_generation = self.next_previewer_generation + 1;
        let generation = self.next_previewer_generation;
        let a = self.active_tab;
        self.tabs[a].previewer_generation = generation;
        let selected = match self.tabs[a].selected_artifact() {
            Some(x) => Some(x.clone()),
            None => None,
        };
        match selected {
            None => {
                self.tabs[a].previewer = Previewer::Empty;
            },
            Some(artifact) => {
                if preview == Preview::Never {
                    self.tabs[a].previewer = Previewer::Empty;
                } else if artifact.artifact_type == ArtifactType::File {
                    self.requests.push(
                        AppRequest::PreviewFile {
                            path: artifact.path,
                            title: artifact.name,
                            generation,
                        },
                    );
                } else {
                    self.requests.push(
                        AppRequest::PreviewFolder {
                            path: artifact.path,
                            title: artifact.name,
                            generation,
                            options,
                        },
                    );
                }
            },
        }
        proof {
            assert(old(self).tabs@[old(self).active_tab as int].wf());
            lemma_wf_active_change(*old(self), *self);
        }
    }

    /// Shows `artifacts` in the active tab and asks for its git status.
    fn handle_reload(&mut self, artifacts: ArtifactListResult)
        requires
            old(self).wf(),
        ensures
            final(self).wf(),
            final(self).tabs@.len() == old(self).tabs@.len(),
            forall|i: int|
                0 <= i < old(self).tabs@.len() && i != old(self).active_tab ==> final(self).tabs@[i]
                    == old(self).tabs@[i],
            listing_applied(old(self).active(), final(self).active(), artifacts.artifacts@, artifacts.partial),
            final(self).requests@ == old(self).requests@.push(
                AppRequest::GitMarks {
                    tab: old(self).active_tab,
                    path: old(self).active().current_working_directory,
                },
            ),
            same_app_settings(*old(self), *final(self)),
            final(self).status_message == old(self).status_message,
            final(self).next_generation == old(self).next_generation,
            final(self).next_previewer_generation == old(self).next_previewer_generation,
    {
        let a = self.active_tab;
        self.tabs[a].apply_listing(artifacts);
        let path = self.tabs[a].current_working_directory.clone();
        self.requests.push(AppRequest::GitMarks { tab: a, path });
        proof {
            assert(old(self).tabs@[old(self).active_tab as int].wf());
            lemma_wf_active_change(*old(self), *self);
        }
    }

    /// Lists the active tab's directory again under a fresh listing number:
    /// a cached listing of the directory is shown at once (with its git
    /// status and a new preview), and the fresh listing is requested.
    pub fn async_reload(&mut self)
        requires
            old(self).wf(),
            old(self).next_generation < 0xffff_ffff_ffff_ffff,
            old(self).next_previewer_generation < 0xffff_ffff_ffff_ffff,
        ensures
            final(self).wf(),
            final(self).next_generation == old(self).next_generation + 1,
            final(self).active().generation == final(self).next_generation,
            final(self).tabs@.len() == old(self).tabs@.len(),
            forall|i: int|
                0 <= i < old(self).tabs@.len() && i != old(self).active_tab ==> final(self).tabs@[i]
                    == old(self).tabs@[i],
            final(self).active().current_working_directory == old(self).active().current_working_directory,
            final(self).active().history == old(self).active().history,
            final(self).active().history_index == old(self).active().history_index,
            final(self).active().marked == old(self).active().marked,
            final(self).active().filter_input == old(self).active().filter_input,
            same_app_settings(*old(self), *final(self)),
            final(self).status_message == old(self).status_message,
            match cache_lookup(old(self).cache@, old(self).active().current_working_directory@) {
                None => {
                    &&& final(self).requests@ == old(self).requests@.push(
                        AppRequest::List {
                            path: old(self).active().current_working_directory,
                            generation: final(self).next_generation,
                            options: options_of(old(self).config),
                        },
                    )
                    &&& final(self).next_previewer_generation == old(self).next_previewer_generation
                    &&& final(self).active().selected == old(self).active().selected
                    &&& final(self).active().entries_filtered == old(self).active().entries_filtered
                    &&& final(self).active().entries_cache == old(self).active().entries_cache
                    &&& final(self).active().previewer_generation == old(self).active().previewer_generation
                },
                Some(c) => {
                    &&& final(self).requests@ == old(self).requests@.push(
                        AppRequest::GitMarks {
                            tab: old(self).active_tab,
                            path: old(self).active().current_working_directory,
                        },
                    ) + preview_requests(
                        final(self).active().selected_entry(),
                        old(self).config.settings.preview,
                        final(self).next_previewer_generation,
                        options_of(old(self).config),
                    ).push(
                        AppRequest::List {
                            path: old(self).active().current_working_directory,
                            generation: final(self).next_generation,
                            options: options_of(old(self).config),
                        },
                    )
                    &&& final(self).next_previewer_generation == old(self).next_previewer_generation + 1
                    &&& final(self).active().entries_cache@ == c.artifacts@
                    &&& final(self).active().listing_partial == c.partial
                    &&& old(self).active().filter_input@.len() == 0 ==> final(self).active().entries_filtered@
                        == c.artifacts@ && final(self).active().selected == clamped_row(
                        old(self).active().selected,
                        c.artifacts@.len(),
                    )
                    &&& old(self).active().filter_input@.len() != 0 ==> final(self).active().entries_filtered@
                        == filtered(c.artifacts@, old(self).active().filter_input@)
                        && final(self).active().selected == Some(0usize)
                },
            },
    {
        let a = self.active_tab;
        let path = self.tabs[a].current_working_directory.clone();
        self.next_generation = self.next_generation + 1;
        let generation = self.next_generation;
        self.tabs[a].generation = generation;
        proof {
            assert(old(self).tabs@[old(self).active_tab as int].wf());
            lemma_wf_active_change(*old(self), *self);
        }
        let ghost mid1 = *self;
        let ghost mid1_requests = self.requests@;
        match cache_get(&self.cache, &path) {
            Some(cached) => {
                self.handle_reload(cached);
                let ghost mid2 = *self;
                self.request_previewer();
                assert(self.requests@ =~= mid1_requests.push(
                    AppRequest::GitMarks { tab: a, path: mid1.active().current_working_directory },
                ) + preview_requests(
                    mid2.active().selected_entry(),
                    old(self).config.settings.preview,
                    self.next_previewer_generation,
                    options_of(old(self).config),
                ));
            },
            None => {},
        }
        let options = Self::get_artifact_options(&self.config);
        self.requests.push(AppRequest::List { path, generation, options });
    }

    /// Forgets every cached listing and lists the active tab again.
    pub fn refresh(&mut self)
        requires
            old(self).wf(),
            old(self).next_generation < 0xffff_ffff_ffff_ffff,
            old(self).next_previewer_generation < 0xffff_ffff_ffff_ffff,
        ensures
            refresh_effect(*old(self), *final(self)),
    {
        self.cache.clear();
        proof {
            assert(self.wf());
        }
        self.async_reload();
    }

    /// Re-applies the active tab's filter and asks for a new preview.
    pub fn filter(&mut self)
        requires
            old(self).wf(),
            old(self).next_previewer_generation < 0xffff_ffff_ffff_ffff,
        ensures
            filter_effect(*old(self), *final(self)),
    {
        let a = self.active_tab;
        self.tabs[a].apply_filter();
        proof {
            assert(old(self).tabs@[old(self).active_tab as int].wf());
            lemma_wf_active_change(*old(self), *self);
        }
        self.request_previewer();
    }

    /// Sets the status line to `Tab {active + 1} / {tab count}`.
    fn set_tab_status(&mut self)
        requires
            old(self).active_tab < old(self).tabs@.len() <= MAX_TABS,
        ensures
            final(self).status_message@ == tab_status(
                (old(self).active_tab + 1) as nat,
                old(self).tabs@.len(),
            ),
            final(self).tabs == old(self).tabs,
            final(self).requests == old(self).requests,
            same_app_settings(*old(self), *final(self)),
            final(self).next_generation == old(self).next_generation,
            final(self).next_previewer_generation == old(self).next_previewer_generation,
    {
        let mut s = String::new();
        push_chars(&mut s, "Tab ");
        push_decimal(&mut s, (self.active_tab + 1) as u64);
        push_chars(&mut s, " / ");
        push_decimal(&mut s, self.tabs.len() as u64);
        self.status_message = s;
    }

    /// Opens a new tab on the active tab's directory (showing its cached or
    /// current listing at once), makes it active and lists it afresh; at
    /// `MAX_TABS` tabs only reports the limit.
    pub fn new_tab(&mut self)
        requires
            old(self).wf(),
            old(self).next_generation < 0xffff_ffff_ffff_fff0,
            old(self).next_previewer_generation < 0xffff_ffff_ffff_ffff,
        ensures
            new_tab_effect(*old(self), *final(self)),
    {
        if self.tabs.len() >= MAX_TABS {
            self.status_message = String::from_str("Tab limit (9) reached");
            return;
        }
        let a = self.active_tab;
        let path = self.tabs[a].current_working_directory.clone();
        let listing = match cache_get(&self.cache, &path) {
            Some(c) => c,
            None => ArtifactListResult {
                artifacts: clone_artifacts(&self.tabs[a].entries_cache),
                partial: self.tabs[a].listing_partial,
            },
        };
        self.next_generation = self.next_generation + 1;
        let pane = BrowserPane::from_listing(path.clone(), listing, self.next_generation);
        let n = self.tabs.len();
        self.requests.push(AppRequest::GitMarks { tab: n, path });
        let ghost before = *self;
        self.tabs.push(pane);
        self.active_tab = self.tabs.len() - 1;
        proof {
            let b = *self;
            assert forall|i: int| 0 <= i < b.tabs@.len() implies #[trigger] b.tabs@[i].wf() by {
                if i < n {
                    assert(before.tabs@[i].wf());
                }
            }
            assert forall|i: int| 0 <= i < b.tabs@.len() implies #[trigger] b.tabs@[i].generation
                <= b.next_generation by {
                if i < n {
                    assert(before.tabs@[i].generation <= old(self).next_generation);
                }
            }
            assert forall|i: int, j: int|
                0 <= i < b.tabs@.len() && 0 <= j < b.tabs@.len() && i != j implies #[trigger] b.tabs@[i].generation
                != #[trigger] b.tabs@[j].generation by {
                if i < n && j < n {
                    assert(before.tabs@[i].generation != before.tabs@[j].generation);
                } else if i < n {
                    assert(before.tabs@[i].generation <= old(self).next_generation);
                } else {
                    assert(before.tabs@[j].generation <= old(self).next_generation);
                }
            }
            assert forall|i: int| 0 <= i < b.tabs@.len() implies #[trigger] b.tabs@[i].previewer_generation
                <= b.next_previewer_generation by {
                if i < n {
                    assert(before.tabs@[i].previewer_generation <= old(self).next_previewer_generation);
                }
            }
            assert forall|i: int, j: int|
                0 <= i < b.tabs@.len() && 0 <= j < b.tabs@.len() && i != j
                    && #[trigger] b.tabs@[i].previewer_generation != 0 implies b.tabs@[i].previewer_generation
                != #[trigger] b.tabs@[j].previewer_generation by {
                if i < n && j < n {
                    assert(before.tabs@[i].previewer_generation != before.tabs@[j].previewer_generation);
                }
            }
        }
        self.set_tab_status();
        let ghost before_reload = *self;
        self.async_reload();
        proof {
            assert(before_reload.active() == pane);
            assert(self.requests@.subrange(0, old(self).requests@.len() as int) =~= old(self).requests@);
        }
    }

    /// Closes the active tab, keeping the split peer where it still is a
    /// second visible tab (see `split_after_close`); the last tab cannot be
    /// closed.
    pub fn close_tab(&mut self)
        requires
            old(self).wf(),
        ensures
            close_tab_effect(*old(self), *final(self)),
    {
        if self.tabs.len() == 1 {
            self.status_message = String::from_str("Cannot close the last tab");
            return;
        }
        let closed = self.active_tab;
        let ghost before = self.tabs@;
        self.tabs.remove(closed);
        match self.split_tab {
            Some(split) => {
                if split == closed {
                    self.split_tab = None;
                } else if split > closed {
                    self.split_tab = Some(split - 1);
                }
            },
            None => {},
        }
        if self.active_tab >= self.tabs.len() {
            self.active_tab = self.tabs.len() - 1;
        }
        if self.tabs.len() < 2 || self.split_tab == Some(self.active_tab) {
            self.split_tab = None;
        }
        proof {
            let b = *self;
            let n = before.len();
            assert forall|i: int| 0 <= i < b.tabs@.len() implies #[trigger] b.tabs@[i].wf() by {
                if i < closed {
                    assert(before[i].wf());
                } else {
                    assert(before[i + 1].wf());
                }
            }
            assert forall|i: int| 0 <= i < b.tabs@.len() implies #[trigger] b.tabs@[i].generation
                <= b.next_generation && b.tabs@[i].previewer_generation <= b.next_previewer_generation by {
                if i < closed {
                    assert(before[i].generation <= old(self).next_generation);
                    assert(before[i].previewer_generation <= old(self).next_previewer_generation);
                } else {
                    assert(before[i + 1].generation <= old(self).next_generation);
                    assert(before[i + 1].previewer_generation <= old(self).next_previewer_generation);
                }
            }
            assert forall|i: int, j: int|
                0 <= i < b.tabs@.len() && 0 <= j < b.tabs@.len() && i != j implies #[trigger] b.tabs@[i].generation
                != #[trigger] b.tabs@[j].generation by {
                let oi = if i < closed { i } else { i + 1 };
                let oj = if j < closed { j } else { j + 1 };
                assert(before[oi].generation != before[oj].generation);
            }
            assert forall|i: int, j: int|
                0 <= i < b.tabs@.len() && 0 <= j < b.tabs@.len() && i != j
                    && #[trigger] b.tabs@[i].previewer_generation != 0 implies b.tabs@[i].previewer_generation
                != #[trigger] b.tabs@[j].previewer_generation by {
                let oi = if i < closed { i } else { i + 1 };
                let oj = if j < closed { j } else { j + 1 };
                assert(before[oi].previewer_generation != before[oj].previewer_generation);
            }
        }
        self.set_tab_status();
    }

    /// Activates the next tab (wrapping around) and asks for its preview;
    /// with one tab nothing happens.
    pub fn next_tab(&mut self)
        requires
            old(self).wf(),
            old(self).next_previewer_generation < 0xffff_ffff_ffff_ffff,
        ensures
            next_tab_effect(*old(self), *final(self)),
    {
        if self.tabs.len() < 2 {
            return;
        }
        self.active_tab = (self.active_tab + 1) % self.tabs.len();
        self.set_tab_status();
        self.request_previewer();
    }

    /// Activates the previous tab (wrapping around) and asks for its
    /// preview; with one tab nothing happens.
    pub fn prev_tab(&mut self)
        requires
            old(self).wf(),
            old(self).next_previewer_generation < 0xffff_ffff_ffff_ffff,
        ensures
            prev_tab_effect(*old(self), *final(self)),
    {
        if self.tabs.len() < 2 {
            return;
        }
        self.active_tab = if self.active_tab == 0 {
            self.tabs.len() - 1
        } else {
            self.active_tab - 1
        };
        self.set_tab_status();
        self.request_previewer();
    }

    /// Turns the split off, or turns it on with the tab after the active one
    /// beside it (opening a second tab first when there is only one).
    pub fn toggle_split(&mut self)
        requires
            old(self).wf(),
            old(self).next_generation < 0xffff_ffff_ffff_fff0,
            old(self).next_previewer_generation < 0xffff_ffff_ffff_ffff,
        ensures
            toggle_split_effect(*old(self), *final(self)),
    {
        if self.split_tab.is_some() {
            self.split_tab = None;
            self.status_message = String::from_str("Split off");
            return;
        }
        if self.tabs.len() < 2 {
            self.new_tab();
        }
        let peer = if self.active_tab + 1 < self.tabs.len() {
            self.active_tab + 1
        } else {
            0
        };
        if peer == self.active_tab {
            self.status_message = String::from_str("Need a second tab to split");
            return;
        }
        self.split_tab = Some(peer);
        self.status_message = String::from_str("Split on · Tab focuses panes");
    }

    /// With the split on, swaps the active tab and its peer and asks for a
    /// preview; otherwise activates the next tab.
    pub fn focus_other_pane(&mut self)
        requires
            old(self).wf(),
            old(self).next_previewer_generation < 0xffff_ffff_ffff_ffff,
        ensures
            focus_other_pane_effect(*old(self), *final(self)),
    {
        match self.split_tab {
            Some(peer) => {
                let current = self.active_tab;
                self.active_tab = peer;
                self.split_tab = Some(current);
                let mut s = String::new();
                push_chars(&mut s, "Focus tab ");
                push_decimal(&mut s, (peer + 1) as u64);
                self.status_message = s;
                self.request_previewer();
            },
            None => {
                self.next_tab();
            },
        }
    }

    /// An explorer on `path` showing `listing` (its first listing, or an
    /// empty one when that failed): the single tab is on `canonical`, the
    /// canonical form of `path`, or on `path` itself when there is none,
    /// and the first background listing and the git status are requested.
    pub fn new_resolved(
        path: String,
        canonical: Option<String>,
        config: AppConfig,
        listing: Result<ArtifactListResult, RTVUIError>,
    ) -> (r: Self)
        ensures
            r.wf(),
            r.headroom(),
            r.tabs@.len() == 1,
            r.active_tab == 0,
            r.split_tab is None,
            r.status_message@.len() == 0,
            r.state == AppState::Active,
            r.rename_input@.len() == 0,
            r.goto_input@.len() == 0,
            r.config == config,
            r.cache@.len() == 0,
            r.pending_editor is None,
            r.next_generation == 1,
            r.next_previewer_generation == 0,
            r.active().generation == 1,
            views(r.active().history@) == seq![r.active().current_working_directory@],
            r.active().filter_input@.len() == 0,
            match listing {
                Ok(l) => r.active().entries_cache@ == l.artifacts@ && r.active().entries_filtered@
                    == l.artifacts@ && r.active().selected == first_row(l.artifacts@.len())
                    && r.active().listing_partial == l.partial,
                Err(_) => r.active().entries_cache@.len() == 0 && r.active().entries_filtered@.len()
                    == 0 && r.active().selected is None && !r.active().listing_partial,
            },
            r.requests@ == seq![
                AppRequest::List {
                    path: r.active().current_working_directory,
                    generation: 1,
                    options: options_of(config),
                },
                AppRequest::GitMarks { tab: 0, path: r.active().current_working_directory },
            ],
            r.active().current_working_directory == (match canonical {
                Some(c) => c,
                None => path,
            }),
    {
        let artifact_list = match listing {
            Ok(l) => l,
            Err(_) => ArtifactListResult::default(),
        };
        let generation: u64 = 1;
        let start = match canonical {
            Some(c) => c,
            None => path,
        };
        let options = Self::get_artifact_options(&config);
        let mut requests: Vec<AppRequest> = Vec::new();
        requests.push(AppRequest::List { path: start.clone(), generation, options });
        requests.push(AppRequest::GitMarks { tab: 0, path: start.clone() });
        let pane = BrowserPane::from_listing(start, artifact_list, generation);
        let app = App {
            tabs: vec![pane],
            active_tab: 0,
            split_tab: None,
            status_message: String::new(),
            state: AppState::Active,
            rename_input: String::new(),
            goto_input: String::new(),
            config,
            cache: Vec::new(),
            pending_editor: None,
            requests,
            next_generation: generation,
            next_previewer_generation: 0,
        };
        assert(app.tabs@[0] == app.active());
        app
    }

    /// An explorer on `path` showing `listing` (its first listing, or an
    /// empty one when that failed): the single tab is on the canonical form
    /// of `path` (or `path` itself), which the filesystem decides (see
    /// `new_resolved`), and the first background listing and the git
    /// status are requested.
    pub fn new(path: String, config: AppConfig, listing: Result<ArtifactListResult, RTVUIError>) -> (r: Self)
        ensures
            r.wf(),
            r.headroom(),
            r.tabs@.len() == 1,
            r.active_tab == 0,
            r.split_tab is None,
            r.status_message@.len() == 0,
            r.state == AppState::Active,
            r.rename_input@.len() == 0,
            r.goto_input@.len() == 0,
            r.config == config,
            r.cache@.len() == 0,
            r.pending_editor is None,
            r.next_generation == 1,
            r.next_previewer_generation == 0,
            r.active().generation == 1,
            views(r.active().history@) == seq![r.active().current_working_directory@],
            r.active().filter_input@.len() == 0,
            match listing {
                Ok(l) => r.active().entries_cache@ == l.artifacts@ && r.active().entries_filtered@
                    == l.artifacts@ && r.active().selected == first_row(l.artifacts@.len())
                    && r.active().listing_partial == l.partial,
                Err(_) => r.active().entries_cache@.len() == 0 && r.active().entries_filtered@.len()
                    == 0 && r.active().selected is None && !r.active().listing_partial,
            },
            r.requests@ == seq![
                AppRequest::List {
                    path: r.active().current_working_directory,
                    generation: 1,
                    options: options_of(config),
                },
                AppRequest::GitMarks { tab: 0, path: r.active().current_working_directory },
            ],
    {
        let canonical = canonicalize(path.as_str());
        Self::new_resolved(path, canonical, config, listing)
    }

    /// Shows the result of listing the active tab's directory: the listing
    /// (with a git status request), or on failure an empty tab and
    /// `Error: ...` in the status line.
    pub fn reload_with(&mut self, result: Result<ArtifactListResult, RTVUIError>)
        requires
            old(self).wf(),
        ensures
            final(self).wf(),
            final(self).tabs@.len() == old(self).tabs@.len(),
            forall|i: int|
                0 <= i < old(self).tabs@.len() && i != old(self).active_tab ==> final(self).tabs@[i]
                    == old(self).tabs@[i],
            match result {
                Ok(l) => {
                    &&& listing_applied(old(self).active(), final(self).active(), l.artifacts@, l.partial)
                    &&& final(self).requests@ == old(self).requests@.push(
                        AppRequest::GitMarks {
                            tab: old(self).active_tab,
                            path: old(self).active().current_working_directory,
                        },
                    )
                    &&& final(self).status_message == old(self).status_message
                },
                Err(e) => {
                    &&& final(self).active().artifacts@.len() == 0
                    &&& final(self).active().entries_cache@.len() == 0
                    &&& final(self).active().entries_filtered@.len() == 0
                    &&& final(self).active().selected == old(self).active().selected
                    &&& final(self).active().current_working_directory
                        == old(self).active().current_working_directory
                    &&& final(self).requests == old(self).requests
                    &&& exists|t: Seq<char>| error_text_of(e, t) && final(self).status_message@
                        == "Error: "@ + t
                },
            },
            same_app_settings(*old(self), *final(self)),
            final(self).next_generation == old(self).next_generation,
            final(self).next_previewer_generation == old(self).next_previewer_generation,
    {
        match result {
            Ok(artifacts) => self.handle_reload(artifacts),
            Err(e) => self.handle_reload_error(e),
        }
    }

    /// Empties the active tab and reports the error.
    fn handle_reload_error(&mut self, error: RTVUIError)
        requires
            old(self).wf(),
        ensures
            final(self).wf(),
            final(self).tabs@.len() == old(self).tabs@.len(),
            forall|i: int|
                0 <= i < old(self).tabs@.len() && i != old(self).active_tab ==> final(self).tabs@[i]
                    == old(self).tabs@[i],
            final(self).active().artifacts@.len() == 0,
            final(self).active().entries_cache@.len() == 0,
            final(self).active().entries_filtered@.len() == 0,
            final(self).active().selected == old(self).active().selected,
            final(self).active().current_working_directory == old(self).active().current_working_directory,
            final(self).active().history == old(self).active().history,
            final(self).active().history_index == old(self).active().history_index,
            final(self).active().generation == old(self).active().generation,
            final(self).active().previewer_generation == old(self).active().previewer_generation,
            final(self).requests == old(self).requests,
            exists|t: Seq<char>| error_text_of(error, t) && final(self).status_message@ == "Error: "@
                + t,
            same_app_settings(*old(self), *final(self)),
            final(self).next_generation == old(self).next_generation,
            final(self).next_previewer_generation == old(self).next_previewer_generation,
    {
        let a = self.active_tab;
        self.tabs[a].artifacts.clear();
        self.tabs[a].entries_cache.clear();
        self.tabs[a].entries_filtered.clear();
        let mut s = String::new();
        push_chars(&mut s, "Error: ");
        let text = error_text(&error);
        push_chars(&mut s, text.as_str());
        assert(s@ =~= "Error: "@ + text@);
        self.status_message = s;
        proof {
            assert(old(self).tabs@[old(self).active_tab as int].wf());
            lemma_wf_active_change(*old(self), *self);
        }
    }

    /// Advances the preview setting (on move, always, never), saves the
    /// configuration, reports the new setting and asks for a preview.
    pub fn cycle_preview(&mut self)
        requires
            old(self).wf(),
            old(self).next_previewer_generation < 0xffff_ffff_ffff_ffff,
        ensures
            cycle_preview_effect(*old(self), *final(self)),
    {
        self.config.settings.preview = match self.config.settings.preview {
            Preview::OnMove => Preview::Always,
            Preview::Always => Preview::Never,
            Preview::Never => Preview::OnMove,
        };
        let snapshot = self.config.clone();
        self.requests.push(AppRequest::SaveConfig { config: snapshot });
        let mut s = String::new();
        push_chars(&mut s, "Preview: ");
        match self.config.settings.preview {
            Preview::OnMove => push_chars(&mut s, "OnMove"),
            Preview::Always => push_chars(&mut s, "Always"),
            Preview::Never => push_chars(&mut s, "Never"),
        }
        self.status_message = s;
        let ghost mid = self.requests@;
        self.request_previewer();
    }

    /// Records the active tab's directory in its history.
    pub fn record_history(&mut self)
        requires
            old(self).wf(),
        ensures
            final(self).wf(),
            final(self).tabs@.len() == old(self).tabs@.len(),
            forall|i: int|
                0 <= i < old(self).tabs@.len() && i != old(self).active_tab ==> final(self).tabs@[i]
                    == old(self).tabs@[i],
            exists|cwd: String|
                final(self).active().history@ == crate::models::pane::history_after_visit(
                    old(self).active().history@,
                    old(self).active().history_index as int,
                    cwd,
                ),
            final(self).active().current_working_directory == old(self).active().current_working_directory,
            final(self).active().selected == old(self).active().selected,
            final(self).active().entries_filtered == old(self).active().entries_filtered,
            final(self).requests == old(self).requests,
            final(self).status_message == old(self).status_message,
            same_app_settings(*old(self), *final(self)),
            final(self).next_generation == old(self).next_generation,
            final(self).next_previewer_generation == old(self).next_previewer_generation,
    {
        let a = self.active_tab;
        proof {
            assert(old(self).tabs@[old(self).active_tab as int].wf());
        }
        self.tabs[a].record_history();
        proof {
            lemma_wf_active_change(*old(self), *self);
        }
    }

    /// Moves back one history entry and lists it; at the oldest entry only
    /// reports that.
    pub fn history_back(&mut self)
        requires
            old(self).wf(),
            old(self).next_generation < 0xffff_ffff_ffff_ffff,
            old(self).next_previewer_generation < 0xffff_ffff_ffff_ffff,
        ensures
            history_back_effect(*old(self), *final(self)),
    {
        let a = self.active_tab;
        proof {
            assert(old(self).tabs@[old(self).active_tab as int].wf());
        }
        if self.tabs[a].history_index == 0 {
            self.status_message = String::from_str("History: at oldest");
            return;
        }
        let index = self.tabs[a].history_index - 1;
        self.tabs[a].history_index = index;
        let dir = self.tabs[a].history[index].clone();
        self.tabs[a].current_working_directory = dir;
        self.tabs[a].selected = Some(0);
        self.status_message = String::from_str("History: back");
        proof {
            lemma_wf_active_change(*old(self), *self);
        }
        self.async_reload();
    }

    /// Moves forward one history entry and lists it; at the newest entry
    /// only reports that.
    pub fn history_forward(&mut self)
        requires
            old(self).wf(),
            old(self).next_generation < 0xffff_ffff_ffff_ffff,
            old(self).next_previewer_generation < 0xffff_ffff_ffff_ffff,
        ensures
            history_forward_effect(*old(self), *final(self)),
    {
        let a = self.active_tab;
        proof {
            assert(old(self).tabs@[old(self).active_tab as int].wf());
        }
        let hlen = self.tabs[a].history.len();
        assert(self.tabs@[a as int].history_index < hlen);
        if self.tabs[a].history_index + 1 >= hlen {
            self.status_message = String::from_str("History: at newest");
            return;
        }
        let index = self.tabs[a].history_index + 1;
        self.tabs[a].history_index = index;
        let dir = self.tabs[a].history[index].clone();
        self.tabs[a].current_working_directory = dir;
        self.tabs[a].selected = Some(0);
        self.status_message = String::from_str("History: forward");
        proof {
            lemma_wf_active_change(*old(self), *self);
        }
        self.async_reload();
    }

    /// The first tab whose listing number is `g`.
    fn find_generation(&self, g: u64) -> (r: Option<usize>)
        ensures
            match r {
                Some(i) => i == tab_with_generation(self.tabs@, g),
                None => tab_with_generation(self.tabs@, g) == -1,
            },
    {
        let mut i: usize = 0;
        while i < self.tabs.len()
            invariant
                i <= self.tabs@.len(),
                forall|j: int| 0 <= j < i ==> self.tabs@[j].generation != g,
            decreases self.tabs@.len() - i,
        {
            if self.tabs[i].generation == g {
                let ghost k = tab_with_generation(self.tabs@, g);
                assert(0 <= k < self.tabs@.len() && self.tabs@[k].generation == g && forall|j: int|
                    0 <= j < k ==> self.tabs@[j].generation != g);
                assert(k == i) by {
                    if k < i {
                    } else if k > i {
                        assert(self.tabs@[i as int].generation == g);
                    }
                }
                return Some(i);
            }
            i = i + 1;
        }
        None
    }

    /// The first tab whose preview number is `g`.
    fn find_preview_generation(&self, g: u64) -> (r: Option<usize>)
        ensures
            match r {
                Some(i) => i == tab_with_preview_generation(self.tabs@, g),
                None => tab_with_preview_generation(self.tabs@, g) == -1,
            },
    {
        let mut i: usize = 0;
        while i < self.tabs.len()
            invariant
                i <= self.tabs@.len(),
                forall|j: int| 0 <= j < i ==> self.tabs@[j].previewer_generation != g,
            decreases self.tabs@.len() - i,
        {
            if self.tabs[i].previewer_generation == g {
                let ghost k = tab_with_preview_generation(self.tabs@, g);
                assert(0 <= k < self.tabs@.len() && self.tabs@[k].previewer_generation == g && forall|j: int|
                    0 <= j < k ==> self.tabs@[j].previewer_generation != g);
                assert(k == i) by {
                    if k < i {
                    } else if k > i {
                        assert(self.tabs@[i as int].previewer_generation == g);
                    }
                }
                return Some(i);
            }
            i = i + 1;
        }
        None
    }

    /// Applies a finished background request. A listing goes to the tab
    /// that asked for it under that number (and nowhere if none did): the
    /// tab moves to the listed path, shows the entries, the listing is
    /// cached, an error or truncation is reported, git status is asked for,
    /// and the active tab gets a new preview unless previews are off. A
    /// preview goes to the first tab waiting for that preview number.
    pub fn apply_async_event(&mut self, event: AsyncEvents)
        requires
            old(self).wf(),
            old(self).next_previewer_generation < 0xffff_ffff_ffff_ffff,
        ensures
            final(self).wf(),
            final(self).tabs@.len() == old(self).tabs@.len(),
            final(self).active_tab == old(self).active_tab,
            final(self).split_tab == old(self).split_tab,
            final(self).config == old(self).config,
            final(self).state == old(self).state,
            final(self).next_generation == old(self).next_generation,
            match event {
                AsyncEvents::BrowserDone { generation, artifacts, path, error } => {
                    let i = tab_with_generation(old(self).tabs@, generation);
                    if i < 0 {
                        &&& final(self).tabs == old(self).tabs
                        &&& final(self).cache == old(self).cache
                        &&& final(self).requests == old(self).requests
                        &&& final(self).status_message == old(self).status_message
                        &&& final(self).next_previewer_generation == old(self).next_previewer_generation
                    } else {
                        let previews = i == old(self).active_tab && old(self).config.settings.preview
                            != Preview::Never;
                        &&& forall|j: int| 0 <= j < old(self).tabs@.len() && j != i ==> final(self).tabs@[j] == old(self).tabs@[j]
                        &&& listing_done(old(self).tabs@[i], final(self).tabs@[i], path, artifacts.artifacts@, artifacts.partial)
                        &&& cache_lookup(final(self).cache@, path@) matches Some(c) && c.artifacts@
                            == artifacts.artifacts@ && c.partial == artifacts.partial
                        &&& forall|k: Seq<char>| k != path@ ==> cache_lookup(final(self).cache@, k) == cache_lookup(old(self).cache@, k)
                        &&& final(self).status_message@ == listing_status(old(self).status_message@, error, artifacts.partial)
                        &&& final(self).requests@ == old(self).requests@.push(
                            AppRequest::GitMarks { tab: i as usize, path },
                        ) + (if previews {
                            preview_requests(
                                final(self).active().selected_entry(),
                                old(self).config.settings.preview,
                                final(self).next_previewer_generation,
                                options_of(old(self).config),
                            )
                        } else {
                            Seq::empty()
                        })
                        &&& final(self).next_previewer_generation == old(self).next_previewer_generation + (if previews { 1int } else { 0int })
                    }
                },
                AsyncEvents::FolderPreviewDone { generation, previewer }
                | AsyncEvents::PreviewerDone { generation, previewer } => {
                    let i = tab_with_preview_generation(old(self).tabs@, generation);
                    &&& final(self).cache == old(self).cache
                    &&& final(self).requests == old(self).requests
                    &&& final(self).status_message == old(self).status_message
                    &&& final(self).next_previewer_generation == old(self).next_previewer_generation
                    &&& i < 0 ==> final(self).tabs == old(self).tabs
                    &&& i >= 0 ==> {
                        &&& final(self).tabs@[i].previewer == previewer
                        &&& same_pane_but_preview(old(self).tabs@[i], final(self).tabs@[i])
                        &&& final(self).tabs@[i].previewer_generation == old(self).tabs@[i].previewer_generation
                        &&& forall|j: int| 0 <= j < old(self).tabs@.len() && j != i ==> final(self).tabs@[j] == old(self).tabs@[j]
                    }
                },
            },
    {
        match event {
            AsyncEvents::BrowserDone { generation, artifacts, path, error } => {
                let index = match self.find_generation(generation) {
                    Some(i) => i,
                    None => return,
                };
                proof {
                    assert(old(self).tabs@[index as int].wf());
                }
                let ghost before = self.tabs@[index as int];
                self.tabs[index].current_working_directory = path.clone();
                self.tabs[index].entries_cache = clone_artifacts(&artifacts.artifacts);
                self.tabs[index].listing_partial = artifacts.partial;
                cache_insert(&mut self.cache, path.clone(), artifacts.clone());
                match error {
                    Some(message) => {
                        let mut s = String::new();
                        push_chars(&mut s, "Error: ");
                        push_chars(&mut s, message.as_str());
                        self.status_message = s;
                    },
                    None => {
                        if artifacts.partial {
                            self.status_message = String::from_str("Listing truncated at 50,000 entries");
                        }
                    },
                }
                self.tabs[index].apply_listing(artifacts);
                self.requests.push(AppRequest::GitMarks { tab: index, path });
                proof {
                    let b = *self;
                    let a = *old(self);
                    let n = a.tabs@.len();
                    assert forall|i: int| 0 <= i < n implies #[trigger] b.tabs@[i].wf() && b.tabs@[i].generation == a.tabs@[i].generation
                        && b.tabs@[i].previewer_generation == a.tabs@[i].previewer_generation by {
                        assert(a.tabs@[i].wf());
                    }
                    assert forall|i: int, j: int|
                        0 <= i < n && 0 <= j < n && i != j implies #[trigger] b.tabs@[i].generation
                        != #[trigger] b.tabs@[j].generation by {
                        assert(a.tabs@[i].generation != a.tabs@[j].generation);
                    }
                    assert forall|i: int, j: int|
                        0 <= i < n && 0 <= j < n && i != j && #[trigger] b.tabs@[i].previewer_generation != 0
                            implies b.tabs@[i].previewer_generation != #[trigger] b.tabs@[j].previewer_generation by {
                        assert(a.tabs@[i].previewer_generation != a.tabs@[j].previewer_generation);
                    }
                    assert forall|i: int| 0 <= i < n implies #[trigger] b.tabs@[i].generation <= b.next_generation by {
                        assert(a.tabs@[i].generation <= a.next_generation);
                    }
                    assert forall|i: int| 0 <= i < n implies #[trigger] b.tabs@[i].previewer_generation <= b.next_previewer_generation by {
                        assert(a.tabs@[i].previewer_generation <= a.next_previewer_generation);
                    }
                }
                if index == self.active_tab && self.config.settings.preview != Preview::Never {
                    self.request_previewer();
                }
            },
            AsyncEvents::FolderPreviewDone { generation, previewer } | AsyncEvents::PreviewerDone {
                generation,
                previewer,
            } => {
                match self.find_preview_generation(generation) {
                    Some(i) => {
                        proof {
                            assert(old(self).tabs@[i as int].wf());
                        }
                        self.tabs[i].previewer = previewer;
                        proof {
                            let b = *self;
                            let a = *old(self);
                            let n = a.tabs@.len();
                            assert forall|k: int| 0 <= k < n implies #[trigger] b.tabs@[k].wf() && b.tabs@[k].generation == a.tabs@[k].generation
                                && b.tabs@[k].previewer_generation == a.tabs@[k].previewer_generation by {
                                assert(a.tabs@[k].wf());
                            }
                            assert forall|k: int, j: int|
                                0 <= k < n && 0 <= j < n && k != j implies #[trigger] b.tabs@[k].generation
                                != #[trigger] b.tabs@[j].generation by {
                                assert(a.tabs@[k].generation != a.tabs@[j].generation);
                            }
                            assert forall|k: int, j: int|
                                0 <= k < n && 0 <= j < n && k != j && #[trigger] b.tabs@[k].previewer_generation != 0
                                    implies b.tabs@[k].previewer_generation != #[trigger] b.tabs@[j].previewer_generation by {
                                assert(a.tabs@[k].previewer_generation != a.tabs@[j].previewer_generation);
                            }
                            assert forall|k: int| 0 <= k < n implies #[trigger] b.tabs@[k].generation <= b.next_generation by {
                                assert(a.tabs@[k].generation <= a.next_generation);
                            }
                            assert forall|k: int| 0 <= k < n implies #[trigger] b.tabs@[k].previewer_generation <= b.next_previewer_generation by {
                                assert(a.tabs@[k].previewer_generation <= a.next_previewer_generation);
                            }
                        }
                    },
                    None => {},
                }
            },
        }
    }

    /// Stores the git status letters read for tab `tab` (ignored when there
    /// is no such tab).
    pub fn set_git_marks(&mut self, tab: usize, marks: Vec<(String, char)>)
        requires
            old(self).wf(),
        ensures
            final(self).wf(),
            tab < old(self).tabs@.len() ==> final(self).tabs@[tab as int].git_marks@ == marks@,
            tab >= old(self).tabs@.len() ==> final(self).tabs == old(self).tabs,
            final(self).tabs@.len() == old(self).tabs@.len(),
            forall|j: int| 0 <= j < old(self).tabs@.len() && j != tab ==> final(self).tabs@[j] == old(self).tabs@[j],
            final(self).requests == old(self).requests,
            final(self).status_message == old(self).status_message,
            same_app_settings(*old(self), *final(self)),
            final(self).next_generation == old(self).next_generation,
            final(self).next_previewer_generation == old(self).next_previewer_generation,
    {
        if tab < self.tabs.len() {
            proof {
                assert(old(self).tabs@[tab as int].wf());
            }
            self.tabs[tab].set_git_marks(marks);
            proof {
                let b = *self;
                let a = *old(self);
                let n = a.tabs@.len();
                assert forall|k: int| 0 <= k < n implies #[trigger] b.tabs@[k].wf() && b.tabs@[k].generation == a.tabs@[k].generation
                    && b.tabs@[k].previewer_generation == a.tabs@[k].previewer_generation by {
                    assert(a.tabs@[k].wf());
                }
                assert forall|k: int, j: int|
                    0 <= k < n && 0 <= j < n && k != j implies #[trigger] b.tabs@[k].generation
                    != #[trigger] b.tabs@[j].generation by {
                    assert(a.tabs@[k].generation != a.tabs@[j].generation);
                }
                assert forall|k: int, j: int|
                    0 <= k < n && 0 <= j < n && k != j && #[trigger] b.tabs@[k].previewer_generation != 0
                        implies b.tabs@[k].previewer_generation != #[trigger] b.tabs@[j].previewer_generation by {
                    assert(a.tabs@[k].previewer_generation != a.tabs@[j].previewer_generation);
                }
                assert forall|k: int| 0 <= k < n implies #[trigger] b.tabs@[k].generation <= b.next_generation by {
                    assert(a.tabs@[k].generation <= a.next_generation);
                }
                assert forall|k: int| 0 <= k < n implies #[trigger] b.tabs@[k].previewer_generation <= b.next_previewer_generation by {
                    assert(a.tabs@[k].previewer_generation <= a.next_previewer_generation);
                }
            }
        }
    }

    /// Marks or unmarks the selected entry of the active tab and reports
    /// the number of marks.
    pub fn toggle_mark(&mut self)
        requires
            old(self).wf(),
        ensures
            toggle_mark_effect(*old(self), *final(self)),
    {
        let a = self.active_tab;
        self.tabs[a].toggle_mark_selected();
        proof {
            lemma_wf_same_numbers(*old(self), *self);
        }
        let count = self.tabs[a].marked.len();
        let mut s = String::new();
        push_chars(&mut s, "Marked: ");
        push_decimal(&mut s, count as u64);
        self.status_message = s;
    }

    /// Unmarks everything in the active tab.
    pub fn clear_marks(&mut self)
        requires
            old(self).wf(),
        ensures
            clear_marks_effect(*old(self), *final(self)),
    {
        let a = self.active_tab;
        self.tabs[a].clear_marks();
        proof {
            lemma_wf_same_numbers(*old(self), *self);
        }
        self.status_message = String::from_str("Marks cleared");
    }

    /// Whether the active tab's selection is on a regular file.
    pub fn is_file_artifact(&self) -> (r: bool)
        requires
            self.wf(),
        ensures
            r == (self.active().selected_entry() matches Some(a) && a.artifact_type == ArtifactType::File),
    {
        self.tabs[self.active_tab].is_file_artifact()
    }

    /// The entry under the active tab's selection.
    pub fn selected_artifact(&self) -> (r: Option<&Artifact>)
        requires
            self.wf(),
        ensures
            match r {
                Some(a) => self.active().selected_entry() == Some(*a),
                None => self.active().selected_entry() is None,
            },
    {
        self.tabs[self.active_tab].selected_artifact()
    }

    /// Queues the selected file for the editor; reports when nothing, or
    /// something other than a file, is selected.
    pub fn open_in_editor(&mut self)
        requires
            old(self).wf(),
        ensures
            open_in_editor_effect(*old(self), *final(self)),
    {
        let path = match self.selected_artifact() {
            None => {
                self.status_message = String::from_str("Editor: nothing selected");
                return;
            },
            Some(a) => {
                if a.artifact_type != ArtifactType::File {
                    self.status_message = String::from_str("Editor: select a file");
                    return;
                }
                a.path.clone()
            },
        };
        self.pending_editor = Some(path);
    }

    /// Starts renaming the selection with its name in the input; without a
    /// selection stays active.
    pub fn begin_rename(&mut self) -> (r: AppState)
        requires
            old(self).wf(),
        ensures
            begin_rename_effect(*old(self), *final(self), r),
    {
        let name = match self.selected_artifact() {
            Some(a) => a.name.clone(),
            None => return AppState::Active,
        };
        self.rename_input = name;
        AppState::Rename
    }

    /// Starts the go-to prompt with an empty input.
    pub fn begin_goto(&mut self) -> (r: AppState)
        ensures
            begin_goto_effect(*old(self), *final(self), r),
    {
        self.goto_input = String::new();
        AppState::GoTo
    }

    /// Asks for confirmation when there is something to delete (marks or a
    /// selection); otherwise stays active.
    pub fn begin_delete(&self) -> (r: AppState)
        requires
            self.wf(),
        ensures
            r == (if self.active().marked@.len() > 0 || self.active().selected_entry() is Some {
                AppState::Confirm
            } else {
                AppState::Active
            }),
    {
        if self.tabs[self.active_tab].marked.len() > 0 || self.selected_artifact().is_some() {
            AppState::Confirm
        } else {
            AppState::Active
        }
    }

    /// Moves the active tab to `path`, selects the first row, records
    /// `recorded` in the history and lists `path`.
    pub fn enter_directory_as(&mut self, path: String, recorded: String)
        requires
            old(self).wf(),
            old(self).next_generation < 0xffff_ffff_ffff_ffff,
            old(self).next_previewer_generation < 0xffff_ffff_ffff_ffff,
        ensures
            entered_as(*old(self), *final(self), path, recorded),
            final(self).goto_input == old(self).goto_input,
            final(self).status_message == old(self).status_message,
            final(self).next_previewer_generation <= old(self).next_previewer_generation + 1,
    {
        let a = self.active_tab;
        proof {
            assert(old(self).tabs@[old(self).active_tab as int].wf());
        }
        self.tabs[a].current_working_directory = path;
        self.tabs[a].selected = Some(0);
        self.tabs[a].record_history_as(recorded);
        proof {
            lemma_wf_active_change(*old(self), *self);
        }
        self.async_reload();
        assert(self.requests@.subrange(0, old(self).requests@.len() as int) =~= old(self).requests@);
    }

    /// Moves the active tab to `path`, selects the first row, records the
    /// directory's canonical form (or `path` itself) in the history and
    /// lists it.
    pub(crate) fn enter_directory(&mut self, path: String)
        requires
            old(self).wf(),
            old(self).next_generation < 0xffff_ffff_ffff_ffff,
            old(self).next_previewer_generation < 0xffff_ffff_ffff_ffff,
        ensures
            entered(*old(self), *final(self), path),
            final(self).goto_input == old(self).goto_input,
            final(self).status_message == old(self).status_message,
            final(self).next_previewer_generation <= old(self).next_previewer_generation + 1,
    {
        let recorded = match canonicalize(path.as_str()) {
            Some(c) => c,
            None => path.clone(),
        };
        let ghost rec = recorded;
        self.enter_directory_as(path, recorded);
        assert(entered_as(*old(self), *self, path, rec));
    }

    /// Moves the active tab to the home directory `home`, as its canonical
    /// form `canonical` where there is one, recording that path in the
    /// history; reports when there is no home directory.
    pub fn home_resolved(&mut self, home: Option<String>, canonical: Option<String>)
        requires
            old(self).wf(),
            old(self).next_generation < 0xffff_ffff_ffff_ffff,
            old(self).next_previewer_generation < 0xffff_ffff_ffff_ffff,
        ensures
            home_resolved_effect(*old(self), *final(self), home, canonical),
    {
        let h = match home {
            Some(h) => h,
            None => {
                self.status_message = String::from_str("Home directory unavailable");
                return;
            },
        };
        let path = match canonical {
            Some(c) => c,
            None => h,
        };
        self.enter_directory_as(path.clone(), path);
    }

    /// Moves the active tab to the home directory (canonicalized where
    /// possible); reports when there is none.
    pub fn jump_home(&mut self)
        requires
            old(self).wf(),
            old(self).next_generation < 0xffff_ffff_ffff_ffff,
            old(self).next_previewer_generation < 0xffff_ffff_ffff_ffff,
        ensures
            jump_home_effect(*old(self), *final(self)),
    {
        let home = home_dir();
        let canonical = match &home {
            Some(h) => canonicalize(h.as_str()),
            None => None,
        };
        let ghost (h0, c0) = (home, canonical);
        self.home_resolved(home, canonical);
        assert(home_resolved_effect(*old(self), *self, h0, c0));
    }

    /// Saves `path` as a bookmark: reports the slot it already has, or adds
    /// it in the next slot (dropping the oldest of nine), saves the
    /// configuration and reports the slot.
    pub fn bookmark_path(&mut self, path: String)
        ensures
            bookmarked(*old(self), *final(self), path),
            final(self).tabs == old(self).tabs,
            final(self).rename_input == old(self).rename_input,
            final(self).goto_input == old(self).goto_input,
            final(self).pending_editor == old(self).pending_editor,
            final(self).active_tab == old(self).active_tab,
            final(self).split_tab == old(self).split_tab,
            final(self).state == old(self).state,
            final(self).cache == old(self).cache,
            final(self).next_generation == old(self).next_generation,
            final(self).next_previewer_generation == old(self).next_previewer_generation,
    {
        let mut i: usize = 0;
        while i < self.config.cache.bookmarks.len()
            invariant
                i <= self.config.cache.bookmarks@.len(),
                *self == *old(self),
                forall|j: int| 0 <= j < i ==> self.config.cache.bookmarks@[j]@ != path@,
            decreases self.config.cache.bookmarks@.len() - i,
        {
            if self.config.cache.bookmarks[i] == path {
                proof {
                    let v = views(self.config.cache.bookmarks@);
                    v.index_of_first_ensures(path@);
                    assert(v[i as int] == path@);
                    assert(v.contains(path@));
                    let k = v.index_of_first(path@)->Some_0;
                    assert(k == i) by {
                        if k < i {
                            assert(v[k] == path@);
                        }
                        if k > i {
                            assert(v[i as int] == path@);
                        }
                    }
                }
                let mut s = String::new();
                push_chars(&mut s, "Already bookmarked as ");
                push_decimal(&mut s, (i + 1) as u64);
                self.status_message = s;
                return;
            }
            i = i + 1;
        }
        proof {
            let v = views(self.config.cache.bookmarks@);
            assert(!v.contains(path@));
            v.index_of_first_ensures(path@);
        }
        let ghost before = views(self.config.cache.bookmarks@);
        if self.config.cache.bookmarks.len() >= 9 {
            self.config.cache.bookmarks.remove(0);
            assert(views(self.config.cache.bookmarks@) =~= before.drop_first());
        }
        let ghost kept = views(self.config.cache.bookmarks@);
        self.config.cache.bookmarks.push(path);
        assert(views(self.config.cache.bookmarks@) =~= kept.push(path@));
        let slot = self.config.cache.bookmarks.len();
        let snapshot = self.config.clone();
        self.requests.push(AppRequest::SaveConfig { config: snapshot });
        assert(self.requests@.subrange(0, old(self).requests@.len() as int) =~= old(self).requests@);
        let mut s = String::new();
        push_chars(&mut s, "Bookmarked as ");
        push_decimal(&mut s, slot as u64);
        self.status_message = s;
    }

    /// Bookmarks the active tab's directory as its canonical form
    /// `canonical`, or as it is when there is none.
    pub fn bookmark_resolved(&mut self, canonical: Option<String>)
        requires
            old(self).wf(),
        ensures
            bookmark_resolved_effect(*old(self), *final(self), canonical),
    {
        let path = match canonical {
            Some(c) => c,
            None => self.tabs[self.active_tab].current_working_directory.clone(),
        };
        self.bookmark_path(path);
        proof {
            lemma_wf_same_numbers(*old(self), *self);
        }
    }

    /// Bookmarks the active tab's directory (its canonical form where
    /// possible).
    pub fn bookmark_cwd(&mut self)
        requires
            old(self).wf(),
        ensures
            bookmark_cwd_effect(*old(self), *final(self)),
    {
        let canonical = canonicalize(self.tabs[self.active_tab].current_working_directory.as_str());
        let ghost c0 = canonical;
        self.bookmark_resolved(canonical);
        assert(bookmark_resolved_effect(*old(self), *self, c0));
    }

    /// Moves the active tab to the filled bookmark `slot` when it resolved
    /// (`resolved`, its canonical form) to a directory (`is_dir`), recording
    /// that path in the history; otherwise reports the bookmark missing.
    pub fn jump_resolved(&mut self, slot: usize, resolved: Option<String>, is_dir: bool)
        requires
            old(self).wf(),
            old(self).next_generation < 0xffff_ffff_ffff_ffff,
            old(self).next_previewer_generation < 0xffff_ffff_ffff_ffff,
            1 <= slot <= old(self).config.cache.bookmarks@.len(),
            slot <= 9,
        ensures
            jump_resolved_effect(*old(self), *final(self), slot, resolved, is_dir),
    {
        match resolved {
            Some(path) if is_dir => {
                self.enter_directory_as(path.clone(), path);
                let ghost entered_state = *self;
                let mut s = String::new();
                push_chars(&mut s, "Jumped to bookmark ");
                push_decimal(&mut s, slot as u64);
                self.status_message = s;
                proof {
                    lemma_entered_as_status(*old(self), entered_state, *self, path, path);
                }
            },
            _ => {
                let mut s = String::new();
                push_chars(&mut s, "Bookmark ");
                push_decimal(&mut s, slot as u64);
                push_chars(&mut s, " missing: ");
                push_chars(&mut s, self.config.cache.bookmarks[slot - 1].as_str());
                self.status_message = s;
            },
        }
    }

    /// Moves the active tab to bookmark `slot` (1 to 9) when it names an
    /// existing directory; reports an empty slot or a missing directory.
    /// Other slot numbers are ignored.
    pub fn jump_to_bookmark(&mut self, slot: usize)
        requires
            old(self).wf(),
            old(self).next_generation < 0xffff_ffff_ffff_ffff,
            old(self).next_previewer_generation < 0xffff_ffff_ffff_ffff,
        ensures
            jump_to_bookmark_effect(*old(self), *final(self), slot),
    {
        if slot < 1 || slot > 9 {
            return;
        }
        if slot > self.config.cache.bookmarks.len() {
            let mut s = String::new();
            push_chars(&mut s, "No bookmark in slot ");
            push_decimal(&mut s, slot as u64);
            self.status_message = s;
            return;
        }
        let resolved = canonicalize(self.config.cache.bookmarks[slot - 1].as_str());
        let is_dir = match &resolved {
            Some(p) => path_is_dir(p.as_str()),
            None => false,
        };
        let ghost r0 = resolved;
        self.jump_resolved(slot, resolved, is_dir);
        assert(jump_resolved_effect(*old(self), *self, slot, r0, is_dir));
    }

    /// The path the go-to prompt's `~`-expanded text `expanded` names from
    /// the directory `cwd`.
    pub fn goto_candidate(cwd: &str, expanded: &str) -> (c: String)
        ensures
            c@ == goto_target(cwd@, expanded@),
    {
        if path_is_absolute(expanded) {
            String::from_str(expanded)
        } else {
            path_join(cwd, expanded)
        }
    }

    /// Finishes the go-to prompt for the trimmed text `raw`, whose target
    /// resolved to `resolved` (its canonical form, if it exists), a
    /// directory when `is_dir`: enters the directory and clears the prompt
    /// and the status line, or reports why not and stays at the prompt.
    pub fn goto_resolved(&mut self, raw: &str, resolved: Option<String>, is_dir: bool) -> (r: AppState)
        requires
            old(self).wf(),
            old(self).next_generation < 0xffff_ffff_ffff_ffff,
            old(self).next_previewer_generation < 0xffff_ffff_ffff_ffff,
        ensures
            goto_resolved_effect(*old(self), *final(self), raw@, resolved, is_dir, r),
    {
        let path = match resolved {
            Some(p) => p,
            None => {
                let mut s = String::new();
                push_chars(&mut s, "Go to failed: ");
                push_chars(&mut s, raw);
                push_chars(&mut s, " not found");
                self.status_message = s;
                return AppState::GoTo;
            },
        };
        if !is_dir {
            let mut s = String::new();
            push_chars(&mut s, "Go to failed: ");
            push_chars(&mut s, raw);
            push_chars(&mut s, " is not a directory");
            self.status_message = s;
            return AppState::GoTo;
        }
        let ghost target = path;
        self.enter_directory_as(path.clone(), path);
        let ghost entered_state = *self;
        self.goto_input = String::new();
        self.status_message = String::new();
        proof {
            lemma_entered_as_status(*old(self), entered_state, *self, target, target);
        }
        AppState::Active
    }

    /// Goes to the path typed at the go-to prompt (trimmed, `~` expanded,
    /// relative to the active tab's directory) when it is an existing
    /// directory, clearing the prompt and the status line; otherwise stays
    /// at the prompt and reports why.
    pub fn commit_goto(&mut self) -> (r: AppState)
        requires
            old(self).wf(),
            old(self).next_generation < 0xffff_ffff_ffff_ffff,
            old(self).next_previewer_generation < 0xffff_ffff_ffff_ffff,
        ensures
            commit_goto_effect(*old(self), *final(self), r),
    {
        let raw = trim(self.goto_input.as_str());
        if raw.as_str().is_empty() {
            self.status_message = String::from_str("Go to: enter a path");
            return AppState::GoTo;
        }
        let expanded = expand_tilde(raw.as_str());
        let candidate = Self::goto_candidate(
            self.tabs[self.active_tab].current_working_directory.as_str(),
            expanded.as_str(),
        );
        let resolved = canonicalize(candidate.as_str());
        let is_dir = match &resolved {
            Some(p) => path_is_dir(p.as_str()),
            None => false,
        };
        let ghost r0 = resolved;
        let r = self.goto_resolved(raw.as_str(), resolved, is_dir);
        assert(goto_resolved_effect(*old(self), *self, trimmed(old(self).goto_input@), r0, is_dir, r));
        r
    }

    /// The path a rename of the selection to the trimmed prompt text would
    /// create (joined to the active tab's directory), when the text is a
    /// new name without a path separator.
    pub fn rename_target(&self) -> (r: Option<String>)
        requires
            self.wf(),
        ensures
            match r {
                Some(p) => rename_target_of(*self) == Some(p@),
                None => rename_target_of(*self) is None,
            },
    {
        let new_name = trim(self.rename_input.as_str());
        let old_name = match self.selected_artifact() {
            Some(a) => a.name.clone(),
            None => return None,
        };
        if new_name.as_str().is_empty() || new_name == old_name {
            return None;
        }
        proof {
            reveal_strlit("..");
        }
        if has_char(new_name.as_str(), '/') || has_char(new_name.as_str(), '\\') || str_eq(
            new_name.as_str(),
            "..",
        ) {
            return None;
        }
        Some(path_join(self.tabs[self.active_tab].current_working_directory.as_str(), new_name.as_str()))
    }

    /// Renames the selection to the trimmed prompt text, given whether the
    /// target path is taken (`exists`): an empty or unchanged name does
    /// nothing; a name with a path separator, or a taken target, is
    /// reported; otherwise the rename is requested.
    pub fn rename_probed(&mut self, exists: bool)
        requires
            old(self).wf(),
        ensures
            rename_probed_effect(*old(self), *final(self), exists),
    {
        let new_name = trim(self.rename_input.as_str());
        let (old_name, old_path) = match self.selected_artifact() {
            Some(a) => (a.name.clone(), a.path.clone()),
            None => return,
        };
        if new_name.as_str().is_empty() || new_name == old_name {
            return;
        }
        proof {
            reveal_strlit("..");
        }
        if has_char(new_name.as_str(), '/') || has_char(new_name.as_str(), '\\') || str_eq(
            new_name.as_str(),
            "..",
        ) {
            self.status_message = String::from_str("Rename failed: name cannot contain a path separator");
            return;
        }
        if exists {
            let mut s = String::new();
            push_chars(&mut s, "Rename failed: ");
            push_chars(&mut s, new_name.as_str());
            push_chars(&mut s, " already exists");
            self.status_message = s;
            return;
        }
        let new_path = path_join(
            self.tabs[self.active_tab].current_working_directory.as_str(),
            new_name.as_str(),
        );
        self.requests.push(AppRequest::Rename { from: old_path, to: new_path, new_name });
        assert(self.requests@.subrange(0, old(self).requests@.len() as int) =~= old(self).requests@);
    }

    /// Checks the name typed at the rename prompt (trimmed) for the
    /// selection: an empty or unchanged name does nothing; a name with a
    /// path separator, or one already taken in the directory, is reported;
    /// otherwise the rename is requested.
    pub fn commit_rename(&mut self)
        requires
            old(self).wf(),
        ensures
            commit_rename_effect(*old(self), *final(self)),
    {
        let exists = match self.rename_target() {
            Some(p) => path_exists(p.as_str()),
            None => false,
        };
        self.rename_probed(exists);
        assert(rename_probed_effect(*old(self), *self, exists));
    }

    /// Reports how a requested rename went and lists the directory again.
    pub fn finish_rename(&mut self, new_name: String, result: Result<(), String>)
        requires
            old(self).wf(),
            old(self).next_generation < 0xffff_ffff_ffff_ffff,
            old(self).next_previewer_generation < 0xffff_ffff_ffff_ffff,
        ensures
            final(self).wf(),
            match result {
                Ok(()) => final(self).status_message@ == "Renamed to "@ + new_name@,
                Err(e) => final(self).status_message@ == "Rename failed: "@ + e@,
            },
            final(self).cache@.len() == 0,
            final(self).next_generation == old(self).next_generation + 1,
            final(self).active().generation == final(self).next_generation,
            final(self).requests@ == old(self).requests@.push(
                AppRequest::List {
                    path: old(self).active().current_working_directory,
                    generation: final(self).next_generation,
                    options: options_of(old(self).config),
                },
            ),
            final(self).tabs@.len() == old(self).tabs@.len(),
            forall|i: int|
                0 <= i < old(self).tabs@.len() && i != old(self).active_tab ==> final(self).tabs@[i]
                    == old(self).tabs@[i],
            final(self).active_tab == old(self).active_tab,
            final(self).config == old(self).config,
    {
        let mut s = String::new();
        match result {
            Ok(()) => {
                push_chars(&mut s, "Renamed to ");
                push_chars(&mut s, new_name.as_str());
            },
            Err(e) => {
                push_chars(&mut s, "Rename failed: ");
                push_chars(&mut s, e.as_str());
            },
        }
        self.status_message = s;
        proof {
            lemma_wf_same_numbers(*old(self), *self);
        }
        self.refresh();
    }

    /// The active tab.
    pub fn pane(&self) -> (r: &BrowserPane)
        requires
            self.wf(),
        ensures
            *r == self.active(),
    {
        &self.tabs[self.active_tab]
    }

    /// The active tab, to change it.
    pub fn pane_mut(&mut self) -> (r: &mut BrowserPane)
        requires
            old(self).wf(),
        ensures
            *r == old(self).active(),
            final(self).tabs@ == old(self).tabs@.update(old(self).active_tab as int, *final(r)),
            *final(self) == (App { tabs: final(self).tabs, ..*old(self) }),
    {
        let a = self.active_tab;
        &mut self.tabs[a]
    }

    /// The active tab's working directory.
    pub fn current_working_directory(&self) -> (r: &String)
        requires
            self.wf(),
        ensures
            *r == self.active().current_working_directory,
    {
        &self.tabs[self.active_tab].current_working_directory
    }

    /// The active tab's working directory, to change it.
    pub fn current_working_directory_mut(&mut self) -> (r: &mut String)
        requires
            old(self).wf(),
        ensures
            *r == old(self).active().current_working_directory,
            final(self).tabs@ == old(self).tabs@.update(
                old(self).active_tab as int,
                BrowserPane { current_working_directory: *final(r), ..old(self).active() },
            ),
            *final(self) == (App { tabs: final(self).tabs, ..*old(self) }),
    {
        let a = self.active_tab;
        &mut self.tabs[a].current_working_directory
    }

    /// The row selected in the active tab.
    pub fn scroll_state(&self) -> (r: Option<usize>)
        requires
            self.wf(),
        ensures
            r == self.active().selected,
    {
        self.tabs[self.active_tab].selected
    }

    /// The row selected in the active tab, to change it.
    pub fn scroll_state_mut(&mut self) -> (r: &mut Option<usize>)
        requires
            old(self).wf(),
        ensures
            *r == old(self).active().selected,
            final(self).tabs@ == old(self).tabs@.update(
                old(self).active_tab as int,
                BrowserPane { selected: *final(r), ..old(self).active() },
            ),
            *final(self) == (App { tabs: final(self).tabs, ..*old(self) }),
    {
        let a = self.active_tab;
        &mut self.tabs[a].selected
    }

    /// The rows the active tab shows.
    pub fn entries_filtered(&self) -> (r: &Vec<Artifact>)
        requires
            self.wf(),
        ensures
            r@ == self.active().entries_filtered@,
    {
        &self.tabs[self.active_tab].entries_filtered
    }

    /// The active tab's whole listing.
    pub fn entries_cache(&self) -> (r: &Vec<Artifact>)
        requires
            self.wf(),
        ensures
            r@ == self.active().entries_cache@,
    {
        &self.tabs[self.active_tab].entries_cache
    }

    /// The active tab's filter text.
    pub fn filter_input(&self) -> (r: &str)
        requires
            self.wf(),
        ensures
            r@ == self.active().filter_input@,
    {
        self.tabs[self.active_tab].filter_input.as_str()
    }

    /// The active tab's filter text, to change it.
    pub fn filter_input_mut(&mut self) -> (r: &mut String)
        requires
            old(self).wf(),
        ensures
            *r == old(self).active().filter_input,
            final(self).tabs@ == old(self).tabs@.update(
                old(self).active_tab as int,
                BrowserPane { filter_input: *final(r), ..old(self).active() },
            ),
            *final(self) == (App { tabs: final(self).tabs, ..*old(self) }),
    {
        let a = self.active_tab;
        &mut self.tabs[a].filter_input
    }

    /// Whether the active tab's listing stopped early.
    pub fn listing_partial(&self) -> (r: bool)
        requires
            self.wf(),
        ensures
            r == self.active().listing_partial,
    {
        self.tabs[self.active_tab].listing_partial
    }

    /// What the active tab's side pane shows.
    pub fn previewer(&self) -> (r: &Previewer)
        requires
            self.wf(),
        ensures
            *r == self.active().previewer,
    {
        &self.tabs[self.active_tab].previewer
    }

    /// The colours of the current theme.
    pub fn palette(&self) -> (r: Palette)
        ensures
            r == theme_palette(self.config.theme),
    {
        self.config.theme.palette()
    }
}

/// Each settings cycle comes back to its start: four theme steps, three
/// sort steps and three preview steps.
pub proof fn lemma_settings_cycles(t: Themes, o: Sort, p: Preview)
    ensures
        next_theme(next_theme(next_theme(next_theme(t)))) == t,
        next_theme(t) != t,
        next_sort(next_sort(next_sort(o))) == o,
        next_sort(o) != o,
        next_preview(next_preview(next_preview(p))) == p,
        next_preview(p) != p,
{
}

/// Among `n` tabs, the tab before the one after `a` is `a` again, and the
/// tab after the one before `a` too.
pub proof fn lemma_tab_steps_undo(a: int, n: int)
    requires
        0 <= a < n,
    ensures
        prev_tab_index(next_tab_index(a, n), n) == a,
        next_tab_index(prev_tab_index(a, n), n) == a,
        0 <= next_tab_index(a, n) < n,
        0 <= prev_tab_index(a, n) < n,
{
    if a + 1 < n {
        assert((a + 1) % n == a + 1) by (nonlinear_arith)
            requires
                0 <= a + 1 < n,
        ;
    } else {
        assert((a + 1) % n == 0) by (nonlinear_arith)
            requires
                a + 1 == n,
                n > 0,
        ;
    }
    if a == 0 {
        assert((n - 1 + 1) % n == 0) by (nonlinear_arith)
            requires
                n > 0,
        ;
    } else {
        assert((a - 1 + 1) % n == a) by (nonlinear_arith)
            requires
                0 < a < n,
        ;
    }
}

/// Switching to the next tab and then to the previous one comes back to
/// the tab the explorer started on, with the same tabs.
pub proof fn lemma_next_then_prev_tab(a: App, b: App, c: App)
    requires
        a.wf(),
        next_tab_effect(a, b),
        prev_tab_effect(b, c),
    ensures
        c.active_tab == a.active_tab,
        c.tabs@.len() == a.tabs@.len(),
{
    if a.tabs@.len() >= 2 {
        lemma_tab_steps_undo(a.active_tab as int, a.tabs@.len() as int);
    }
}

/// Focusing the other pane twice in a split comes back to the tab the
/// explorer started on, with the same split, and leaves every tab on the
/// same directory with the same listing.
pub proof fn lemma_focus_twice(a: App, b: App, c: App)
    requires
        a.wf(),
        a.split_tab is Some,
        focus_other_pane_effect(a, b),
        focus_other_pane_effect(b, c),
    ensures
        c.active_tab == a.active_tab,
        c.split_tab == a.split_tab,
        b.active_tab == a.split_tab->0,
        b.split_tab == Some(a.active_tab),
        c.tabs@.len() == a.tabs@.len(),
        forall|i: int|
            0 <= i < a.tabs@.len() ==> #[trigger] c.tabs@[i].current_working_directory
                == a.tabs@[i].current_working_directory && c.tabs@[i].entries_filtered
                == a.tabs@[i].entries_filtered && c.tabs@[i].entries_cache
                == a.tabs@[i].entries_cache,
{
    assert forall|i: int| 0 <= i < a.tabs@.len() implies #[trigger] c.tabs@[i].current_working_directory
        == a.tabs@[i].current_working_directory && c.tabs@[i].entries_filtered
        == a.tabs@[i].entries_filtered && c.tabs@[i].entries_cache == a.tabs@[i].entries_cache by {
        let p = a.split_tab->0;
        let q = b.split_tab->0;
        assert(q == a.active_tab);
        if i == p as int {
            assert(same_pane_but_preview(a.tabs@[i], b.tabs@[i]));
        } else {
            assert(b.tabs@[i] == a.tabs@[i]);
        }
        if i == q as int {
            assert(same_pane_but_preview(b.tabs@[i], c.tabs@[i]));
        } else {
            assert(c.tabs@[i] == b.tabs@[i]);
        }
    }
}

/// Going back in the history and then forward again returns to the same
/// history position, on the directory recorded there; the two steps use
/// one listing number each and at most one preview number each, so
/// an explorer with room for two more of each can take both.
pub proof fn lemma_history_back_forward(a: App, b: App, c: App)
    requires
        a.wf(),
        a.active().history_index > 0,
        history_back_effect(a, b),
        history_forward_effect(b, c),
    ensures
        c.active().history_index == a.active().history_index,
        c.active().history == a.active().history,
        c.active().current_working_directory == a.active().history@[a.active().history_index as int],
        c.status_message@ == "History: forward"@,
        c.next_generation == a.next_generation + 2,
        c.next_previewer_generation <= a.next_previewer_generation + 2,
{
    assert(a.tabs@[a.active_tab as int].wf());
}

/// Tab switching goes the right way round: with two or more tabs, the
/// next tab after tab `k` is tab `k + 1` (the first after the last), and
/// the previous one is tab `k - 1` (the last before the first).
pub proof fn lemma_tab_switch_direction(a: App, b: App, c: App)
    requires
        a.wf(),
        a.tabs@.len() >= 2,
        next_tab_effect(a, b),
        prev_tab_effect(a, c),
    ensures
        a.active_tab + 1 < a.tabs@.len() ==> b.active_tab == a.active_tab + 1,
        a.active_tab + 1 == a.tabs@.len() ==> b.active_tab == 0,
        a.active_tab > 0 ==> c.active_tab == a.active_tab - 1,
        a.active_tab == 0 ==> c.active_tab == a.tabs@.len() - 1,
        b.status_message@ == tab_status((b.active_tab + 1) as nat, a.tabs@.len()),
{
    let n = a.tabs@.len() as int;
    let k = a.active_tab as int;
    if k + 1 < n {
        assert((k + 1) % n == k + 1) by (nonlinear_arith)
            requires
                0 <= k + 1 < n,
        ;
    } else {
        assert((k + 1) % n == 0) by (nonlinear_arith)
            requires
                k + 1 == n,
                n > 0,
        ;
    }
}

/// Bookmarking keeps at most nine bookmarks in the order they were made:
/// a path already bookmarked leaves them alone and reports its slot (its
/// place, counting from one); a new path goes last, after the older
/// bookmarks, the oldest of nine dropping out.
pub proof fn lemma_bookmark_order(a: App, b: App, p: String)
    requires
        bookmarked(a, b, p),
        a.config.cache.bookmarks@.len() <= 9,
    ensures
        views(a.config.cache.bookmarks@).contains(p@) ==> {
            &&& b.config.cache.bookmarks == a.config.cache.bookmarks
            &&& exists|i: int|
                0 <= i < a.config.cache.bookmarks@.len() && a.config.cache.bookmarks@[i]@ == p@
                    && b.status_message@ == "Already bookmarked as "@ + decimal((i + 1) as nat)
        },
        !views(a.config.cache.bookmarks@).contains(p@) ==> {
            let old_n = a.config.cache.bookmarks@.len();
            let n = b.config.cache.bookmarks@.len();
            &&& n == (if old_n < 9 { old_n + 1 } else { 9 })
            &&& b.config.cache.bookmarks@[n - 1]@ == p@
            &&& forall|k: int|
                0 <= k < n - 1 ==> #[trigger] b.config.cache.bookmarks@[k]@
                    == a.config.cache.bookmarks@[old_n + 1 - n + k]@
            &&& b.status_message@ == "Bookmarked as "@ + decimal(n)
        },
{
    let v = views(a.config.cache.bookmarks@);
    v.index_of_first_ensures(p@);
    let w = views(b.config.cache.bookmarks@);
    if !v.contains(p@) {
        assert forall|k: int| 0 <= k < w.len() - 1 implies #[trigger] b.config.cache.bookmarks@[k]@
            == a.config.cache.bookmarks@[v.len() + 1 - w.len() + k]@ by {
            assert(w[k] == b.config.cache.bookmarks@[k]@);
        }
        assert(w[w.len() - 1] == b.config.cache.bookmarks@[w.len() - 1]@);
    }
}

} // verus!
