//! The explorer's file actions: deleting, copying paths to the clipboard and
//! copying or moving entries into the split peer's directory.
//!
//! Each action is decided here and queued as a request; the surrounding
//! program carries it out and reports the outcome to the matching
//! `finish_*` method, which writes the status line and lists again.

use vstd::prelude::*;
use crate::artifact::ArtifactType;
use crate::config::app::clone_strings;
use crate::models::app::{App, AppRequest, TransferKind, delete_text, options_of, transfer_text};
use crate::models::pane::BrowserPane;
use crate::pathops::{file_name_of, joined, path_exists, path_file_name, path_is_dir, path_join};
use crate::text::{ascending, joined_with, join_lines, lines, lines_of, push_chars, push_decimal, sort_strings, views};

verus! {

/// The entries an action works on in pane `p`: the marked paths, or else
/// the path of the entry under the selection, or nothing.
pub open spec fn action_sources(p: BrowserPane) -> Seq<String> {
    if p.marked@.len() > 0 {
        p.marked@
    } else {
        match p.selected_entry() {
            Some(a) => seq![a.path],
            None => Seq::empty(),
        }
    }
}

/// How many entries of `s` are `true`.
pub open spec fn count_true(s: Seq<bool>) -> nat
    decreases s.len(),
{
    if s.len() == 0 {
        0
    } else {
        count_true(s.drop_last()) + if s.last() {
            1nat
        } else {
            0nat
        }
    }
}

/// At most every entry is `true`.
proof fn lemma_count_true_bound(s: Seq<bool>)
    ensures
        count_true(s) <= s.len(),
    decreases s.len(),
{
    if s.len() > 0 {
        lemma_count_true_bound(s.drop_last());
    }
}

/// The number of successes among `outcomes`, and of failures.
fn count_outcomes(outcomes: &Vec<bool>) -> (r: (usize, usize))
    ensures
        r.0 == count_true(outcomes@),
        r.0 + r.1 == outcomes@.len(),
{
    let mut ok: usize = 0;
    let mut i: usize = 0;
    while i < outcomes.len()
        invariant
            i <= outcomes.len(),
            ok == count_true(outcomes@.subrange(0, i as int)),
            ok <= i,
        decreases outcomes.len() - i,
    {
        assert(outcomes@.subrange(0, i + 1).drop_last() =~= outcomes@.subrange(0, i as int));
        if outcomes[i] {
            ok = ok + 1;
        }
        i = i + 1;
    }
    assert(outcomes@.subrange(0, outcomes@.len() as int) =~= outcomes@);
    (ok, outcomes.len() - ok)
}

/// The path `src` gets in directory `dest`: `dest` joined with its last
/// component (or with an empty name when it has none).
pub open spec fn landing(dest: Seq<char>, src: Seq<char>) -> Seq<char> {
    joined(
        dest,
        match file_name_of(src) {
            Some(n) => n,
            None => Seq::empty(),
        },
    )
}

/// The (source, destination) pairs a transfer of `sources` into `dest`
/// carries out, where `taken[i]` tells that source `i`'s destination
/// already exists, so that it is skipped.
pub open spec fn kept_transfers(sources: Seq<String>, taken: Seq<bool>, dest: Seq<char>) -> Seq<(Seq<char>, Seq<char>)>
    decreases sources.len(),
{
    if sources.len() == 0 || taken.len() != sources.len() {
        Seq::empty()
    } else {
        let rest = kept_transfers(sources.drop_last(), taken.drop_last(), dest);
        if taken.last() {
            rest
        } else {
            rest.push((sources.last()@, landing(dest, sources.last()@)))
        }
    }
}

/// The views of a list of string pairs.
pub open spec fn pair_views(v: Seq<(String, String)>) -> Seq<(Seq<char>, Seq<char>)> {
    v.map_values(|p: (String, String)| (p.0@, p.1@))
}

/// The text copied for pane `p` is `text`: the marked paths in ascending
/// order, one per line, or else the selected entry's path.
pub open spec fn copy_text(p: BrowserPane, text: Seq<char>) -> bool {
    if p.marked@.len() > 0 {
        exists|v: Seq<Seq<char>>|
            ascending(v) && v.to_multiset() == views(p.marked@).to_multiset() && text
                == joined_with(v, seq!['\n'])
    } else {
        p.selected_entry() matches Some(a) && text == a.path@
    }
}

/// The status line after a clipboard copy of `text`: the number of paths
/// when it has more than one line, else its first line.
pub open spec fn copied_text(text: Seq<char>, result: Result<(), String>) -> Seq<char> {
    match result {
        Ok(()) => if lines_of(text).len() > 1 {
            "Copied "@ + crate::text::decimal(lines_of(text).len()) + " paths"@
        } else if lines_of(text).len() == 1 {
            "Copied "@ + lines_of(text)[0]
        } else {
            "Copied "@
        },
        Err(e) => "Copy failed: "@ + e@,
    }
}

/// The status line after a transfer between panes: `{verb} {ok} item(s)
/// to other pane`, followed by the skipped and failed counts where they
/// are not zero.
pub fn transfer_status(verb: &str, ok: usize, skipped: usize, failed: usize) -> (r: String)
    ensures
        r@ == transfer_text(verb@, ok as nat, skipped as nat, failed as nat),
{
    let mut s = String::new();
    push_chars(&mut s, verb);
    push_chars(&mut s, " ");
    push_decimal(&mut s, ok as u64);
    push_chars(&mut s, " item(s) to other pane");
    if skipped > 0 {
        push_chars(&mut s, " · ");
        push_decimal(&mut s, skipped as u64);
        push_chars(&mut s, " skipped (exists)");
    }
    if failed > 0 {
        push_chars(&mut s, " · ");
        push_decimal(&mut s, failed as u64);
        push_chars(&mut s, " failed");
    }
    assert(s@ =~= transfer_text(verb@, ok as nat, skipped as nat, failed as nat));
    s
}

/// `after` is `before` after `App::delete_probed(dirs)`: nothing changes
/// when there is nothing to delete; otherwise a delete of the active tab's
/// marked paths (or the selected entry's) is requested, each with whether
/// it is a directory: `dirs[i]` for the `i`-th marked path, the entry's
/// type for a selected entry.
pub open spec fn delete_probed_effect(before: App, after: App, dirs: Seq<bool>) -> bool {
    &&& (after == (App { requests: after.requests, ..before }))
    &&& (action_sources(before.active()).len() == 0 ==> after.requests == before.requests)
    &&& (action_sources(before.active()).len() > 0 ==> {
            &&& after.requests@.len() == before.requests@.len() + 1
            &&& after.requests@.subrange(0, before.requests@.len() as int) == before.requests@
            &&& after.requests@.last() matches AppRequest::Delete { targets, use_trash } && {
                &&& use_trash == before.config.settings.enable_trash
                &&& targets@.len() == action_sources(before.active()).len()
                &&& forall|i: int|
                    0 <= i < targets@.len() ==> #[trigger] targets@[i].0 == action_sources(
                        before.active(),
                    )[i]
                &&& before.active().marked@.len() > 0 ==> forall|i: int|
                    0 <= i < targets@.len() ==> #[trigger] targets@[i].1 == dirs[i]
                &&& before.active().marked@.len() == 0 ==> targets@[0].1 == (
                before.active().selected_entry()->Some_0.artifact_type == ArtifactType::Directory)
            }
        })
}

/// `after` is `before` after `App::commit_delete`: as `delete_probed` with
/// the filesystem's answers on which marked paths are directories.
pub open spec fn commit_delete_effect(before: App, after: App) -> bool {
    exists|dirs: Seq<bool>|
        dirs.len() == before.active().marked@.len() && delete_probed_effect(before, after, dirs)
}

/// The destinations of a transfer of `sources` into `dest`, which the
/// caller probes.
pub fn transfer_targets(sources: &Vec<String>, dest: &str) -> (r: Vec<String>)
    ensures
        r@.len() == sources@.len(),
        forall|i: int| 0 <= i < r@.len() ==> #[trigger] r@[i]@ == landing(dest@, sources@[i]@),
{
    let mut r: Vec<String> = Vec::new();
    let mut i: usize = 0;
    while i < sources.len()
        invariant
            i <= sources@.len(),
            r@.len() == i,
            forall|k: int| 0 <= k < i ==> #[trigger] r@[k]@ == landing(dest@, sources@[k]@),
        decreases sources.len() - i,
    {
        let name = match path_file_name(sources[i].as_str()) {
            Some(n) => n,
            None => String::new(),
        };
        r.push(path_join(dest, name.as_str()));
        i = i + 1;
    }
    r
}

/// The pairs a transfer of `sources` into `dest` carries out, and how many
/// sources it skips, where `taken[i]` tells that source `i`'s destination
/// exists.
pub fn plan_transfer(sources: &Vec<String>, dest: &str, taken: &Vec<bool>) -> (r: (Vec<(String, String)>, usize))
    requires
        taken@.len() == sources@.len(),
    ensures
        pair_views(r.0@) == kept_transfers(sources@, taken@, dest@),
        r.1 == count_true(taken@),
{
    let mut items: Vec<(String, String)> = Vec::new();
    let mut skipped: usize = 0;
    let mut i: usize = 0;
    while i < sources.len()
        invariant
            i <= sources@.len(),
            taken@.len() == sources@.len(),
            skipped == count_true(taken@.subrange(0, i as int)),
            skipped <= i,
            pair_views(items@) == kept_transfers(
                sources@.subrange(0, i as int),
                taken@.subrange(0, i as int),
                dest@,
            ),
        decreases sources.len() - i,
    {
        let ghost before_items = items@;
        proof {
            assert(sources@.subrange(0, i + 1).drop_last() =~= sources@.subrange(0, i as int));
            assert(taken@.subrange(0, i + 1).drop_last() =~= taken@.subrange(0, i as int));
        }
        if taken[i] {
            skipped = skipped + 1;
        } else {
            let name = match path_file_name(sources[i].as_str()) {
                Some(n) => n,
                None => String::new(),
            };
            let target = path_join(dest, name.as_str());
            items.push((sources[i].clone(), target));
            assert(pair_views(items@) =~= pair_views(before_items).push(
                (sources@[i as int]@, landing(dest@, sources@[i as int]@)),
            ));
        }
        i = i + 1;
    }
    assert(sources@.subrange(0, sources@.len() as int) =~= sources@);
    assert(taken@.subrange(0, taken@.len() as int) =~= taken@);
    (items, skipped)
}

/// `b` is `a` after `App::transfer_probed(kind, taken)`: without a split,
/// or with nothing to transfer, only the status line says so; otherwise a
/// transfer of the active tab's marked (or selected) paths into the split
/// peer's directory is requested, leaving out (and counting) the sources
/// whose destination `taken` marks as existing.
pub open spec fn transfer_probed_effect(a: App, b: App, kind: TransferKind, taken: Seq<bool>) -> bool {
    if a.split_tab is None {
        &&& b == (App { status_message: b.status_message, ..a })
        &&& b.status_message@ == (if kind == TransferKind::Copy {
            "Split required for pane copy (\\)"@
        } else {
            "Split required for pane move (\\)"@
        })
    } else if action_sources(a.active()).len() == 0 {
        &&& b == (App { status_message: b.status_message, ..a })
        &&& b.status_message@ == (if kind == TransferKind::Copy {
            "Nothing to copy"@
        } else {
            "Nothing to move"@
        })
    } else {
        let peer = a.split_tab->Some_0;
        let sources = action_sources(a.active());
        let dest = a.tabs@[peer as int].current_working_directory@;
        &&& b == (App { requests: b.requests, ..a })
        &&& b.requests@.len() == a.requests@.len() + 1
        &&& b.requests@.subrange(0, a.requests@.len() as int) == a.requests@
        &&& b.requests@.last() matches AppRequest::Transfer { kind: k, items, skipped, peer: p }
            && k == kind && p == peer && skipped == count_true(taken) && pair_views(items@)
            == kept_transfers(sources, taken, dest)
    }
}

/// `b` is `a` after `App::transfer_to_other_pane(kind)`: as
/// `transfer_probed` with the filesystem's answers on which destinations
/// (see `transfer_targets`) exist.
pub open spec fn transfer_effect(a: App, b: App, kind: TransferKind) -> bool {
    exists|taken: Seq<bool>|
        taken.len() == action_sources(a.active()).len() && transfer_probed_effect(a, b, kind, taken)
}

/// `b` is `a` after asking to copy the active tab's marked (or selected)
/// paths to the clipboard (see `App::copy_selected_path`).
pub open spec fn copy_path_effect(a: App, b: App) -> bool {
    if action_sources(a.active()).len() == 0 {
        &&& b == (App { status_message: b.status_message, ..a })
        &&& b.status_message@ == "Copy failed: nothing selected"@
    } else {
        &&& b == (App { requests: b.requests, ..a })
        &&& b.requests@.len() == a.requests@.len() + 1
        &&& b.requests@.subrange(0, a.requests@.len() as int) == a.requests@
        &&& b.requests@.last() matches AppRequest::Clipboard { text } && copy_text(a.active(), text@)
    }
}

impl App {
    /// The paths an action works on in the active tab (see
    /// `action_sources`).
    fn collect_transfer_sources(&self) -> (r: Vec<String>)
        requires
            self.wf(),
        ensures
            r@ == action_sources(self.active()),
    {
        let pane = &self.tabs[self.active_tab];
        if pane.marked.len() > 0 {
            clone_strings(&pane.marked)
        } else {
            match pane.selected_artifact() {
                Some(a) => vec![a.path.clone()],
                None => Vec::new(),
            }
        }
    }

    /// Asks to delete the marked entries of the active tab, or else the
    /// selected one, to the trash when the settings say so; each target
    /// goes with whether it is a directory (`dirs[i]` for the `i`-th marked
    /// path). Nothing happens when there is nothing to delete.
    pub fn delete_probed(&mut self, dirs: &Vec<bool>)
        requires
            old(self).wf(),
            dirs@.len() == old(self).active().marked@.len(),
        ensures
            delete_probed_effect(*old(self), *final(self), dirs@),
    {
        let use_trash = self.config.settings.enable_trash;
        let a = self.active_tab;
        let mut targets: Vec<(String, bool)> = Vec::new();
        if self.tabs[a].marked.len() > 0 {
            let n = self.tabs[a].marked.len();
            let mut i: usize = 0;
            while i < n
                invariant
                    i <= n,
                    n == self.tabs[a as int].marked@.len(),
                    dirs@.len() == n,
                    a < self.tabs@.len(),
                    targets@.len() == i,
                    forall|j: int| 0 <= j < i ==> #[trigger] targets@[j].0 == self.tabs[a as int].marked@[j],
                    forall|j: int| 0 <= j < i ==> #[trigger] targets@[j].1 == dirs@[j],
                decreases n - i,
            {
                let p = self.tabs[a].marked[i].clone();
                targets.push((p, dirs[i]));
                i = i + 1;
            }
        } else {
            match self.tabs[a].selected_artifact() {
                Some(s) => {
                    targets.push((s.path.clone(), s.artifact_type == ArtifactType::Directory));
                },
                None => {},
            }
        }
        if targets.len() == 0 {
            return;
        }
        self.requests.push(AppRequest::Delete { targets, use_trash });
        assert(self.requests@.subrange(0, old(self).requests@.len() as int) =~= old(self).requests@);
    }

    /// Asks to delete the marked entries of the active tab, or else the
    /// selected one (see `delete_probed`), asking the filesystem which
    /// marked paths are directories.
    pub fn commit_delete(&mut self)
        requires
            old(self).wf(),
        ensures
            commit_delete_effect(*old(self), *final(self)),
    {
        let a = self.active_tab;
        let n = self.tabs[a].marked.len();
        let mut dirs: Vec<bool> = Vec::new();
        let mut i: usize = 0;
        while i < n
            invariant
                i <= n,
                n == self.tabs[a as int].marked@.len(),
                a == self.active_tab,
                self.wf(),
                dirs@.len() == i,
            decreases n - i,
        {
            dirs.push(path_is_dir(self.tabs[a].marked[i].as_str()));
            i = i + 1;
        }
        self.delete_probed(&dirs);
        assert(delete_probed_effect(*old(self), *self, dirs@));
    }

    /// Reports how a requested delete went (`outcomes` tells, target by
    /// target, whether it succeeded), unmarks everything in the active tab
    /// and lists it again.
    pub fn finish_delete(&mut self, use_trash: bool, outcomes: &Vec<bool>)
        requires
            old(self).wf(),
            old(self).next_generation < 0xffff_ffff_ffff_ffff,
            old(self).next_previewer_generation < 0xffff_ffff_ffff_ffff,
        ensures
            final(self).wf(),
            final(self).status_message@ == delete_text(
                use_trash,
                count_true(outcomes@),
                (outcomes@.len() - count_true(outcomes@)) as nat,
            ),
            final(self).active().marked@.len() == 0,
            final(self).cache@.len() == 0,
            final(self).next_generation == old(self).next_generation + 1,
            final(self).active().generation == final(self).next_generation,
            final(self).requests@ == old(self).requests@.push(
                AppRequest::List {
                    path: old(self).active().current_working_directory,
                    generation: final(self).next_generation,
                    options: options_of(old(self).config),
                },
            ),
            final(self).tabs@.len() == old(self).tabs@.len(),
            forall|i: int|
                0 <= i < old(self).tabs@.len() && i != old(self).active_tab ==> final(self).tabs@[i]
                    == old(self).tabs@[i],
            final(self).active_tab == old(self).active_tab,
            final(self).split_tab == old(self).split_tab,
            final(self).config == old(self).config,
    {
        let (ok, fail) = count_outcomes(outcomes);
        self.clear_marks();
        let mut s = String::new();
        if fail == 0 {
            if use_trash {
                push_chars(&mut s, "Moved ");
                push_decimal(&mut s, ok as u64);
                push_chars(&mut s, " item(s) to trash");
            } else {
                push_chars(&mut s, "Deleted ");
                push_decimal(&mut s, ok as u64);
                push_chars(&mut s, " item(s)");
            }
        } else {
            push_chars(&mut s, "Deleted ");
            push_decimal(&mut s, ok as u64);
            push_chars(&mut s, ", failed ");
            push_decimal(&mut s, fail as u64);
        }
        self.status_message = s;
        self.refresh();
    }
    /// Asks to put on the clipboard the marked paths of the active tab in
    /// ascending order, one per line, or else the selected entry's path;
    /// reports when there is nothing to copy.
    pub fn copy_selected_path(&mut self)
        requires
            old(self).wf(),
        ensures
            copy_path_effect(*old(self), *final(self)),
    {
        let a = self.active_tab;
        let text = if self.tabs[a].marked.len() > 0 {
            let mut paths = clone_strings(&self.tabs[a].marked);
            sort_strings(&mut paths);
            join_lines(&paths)
        } else {
            match self.tabs[a].selected_artifact() {
                Some(s) => s.path.clone(),
                None => {
                    self.status_message = String::from_str("Copy failed: nothing selected");
                    return;
                },
            }
        };
        self.requests.push(AppRequest::Clipboard { text });
        assert(self.requests@.subrange(0, old(self).requests@.len() as int) =~= old(self).requests@);
    }

    /// Reports how putting `text` on the clipboard went: the number of
    /// paths when it has several lines, else the path itself, or the error.
    pub fn finish_copy_path(&mut self, text: &String, result: Result<(), String>)
        ensures
            final(self).status_message@ == copied_text(text@, result),
            *final(self) == (App { status_message: final(self).status_message, ..*old(self) }),
    {
        let mut s = String::new();
        match result {
            Ok(()) => {
                let parts = lines(text.as_str());
                push_chars(&mut s, "Copied ");
                if parts.len() > 1 {
                    push_decimal(&mut s, parts.len() as u64);
                    push_chars(&mut s, " paths");
                } else if parts.len() == 1 {
                    push_chars(&mut s, parts[0].as_str());
                }
            },
            Err(e) => {
                push_chars(&mut s, "Copy failed: ");
                push_chars(&mut s, e.as_str());
            },
        }
        self.status_message = s;
    }
    /// Copies (`TransferKind::Copy`) or moves the marked entries of the
    /// active tab, or else the selected one, into the split peer's
    /// directory, given which destinations exist (`taken[i]` for the `i`-th
    /// source): those are skipped and the others are requested. Without a
    /// split, or with nothing to transfer, only the status line says so.
    pub fn transfer_probed(&mut self, kind: TransferKind, taken: &Vec<bool>)
        requires
            old(self).wf(),
            taken@.len() == action_sources(old(self).active()).len(),
        ensures
            transfer_probed_effect(*old(self), *final(self), kind, taken@),
    {
        let peer = match self.split_tab {
            Some(p) => p,
            None => {
                self.status_message = match kind {
                    TransferKind::Copy => String::from_str("Split required for pane copy (\\)"),
                    TransferKind::Move => String::from_str("Split required for pane move (\\)"),
                };
                return;
            },
        };
        let sources = self.collect_transfer_sources();
        if sources.len() == 0 {
            self.status_message = match kind {
                TransferKind::Copy => String::from_str("Nothing to copy"),
                TransferKind::Move => String::from_str("Nothing to move"),
            };
            return;
        }
        let (items, skipped) = plan_transfer(
            &sources,
            self.tabs[peer].current_working_directory.as_str(),
            taken,
        );
        self.requests.push(AppRequest::Transfer { kind, items, skipped, peer });
        assert(self.requests@.subrange(0, old(self).requests@.len() as int) =~= old(self).requests@);
    }

    /// Copies or moves the marked (or selected) entries into the split
    /// peer's directory (see `transfer_probed`), asking the filesystem
    /// which destinations (see `transfer_targets`) exist.
    fn transfer_to_other_pane(&mut self, kind: TransferKind)
        requires
            old(self).wf(),
        ensures
            transfer_effect(*old(self), *final(self), kind),
    {
        let sources = self.collect_transfer_sources();
        let mut taken: Vec<bool> = Vec::new();
        match self.split_tab {
            Some(peer) => {
                let targets = transfer_targets(&sources, self.tabs[peer].current_working_directory.as_str());
                let mut i: usize = 0;
                while i < targets.len()
                    invariant
                        i <= targets@.len(),
                        taken@.len() == i,
                    decreases targets.len() - i,
                {
                    taken.push(path_exists(targets[i].as_str()));
                    i = i + 1;
                }
            },
            None => {
                let mut i: usize = 0;
                while i < sources.len()
                    invariant
                        i <= sources@.len(),
                        taken@.len() == i,
                    decreases sources.len() - i,
                {
                    taken.push(false);
                    i = i + 1;
                }
            },
        }
        self.transfer_probed(kind, &taken);
        assert(transfer_probed_effect(*old(self), *self, kind, taken@));
    }

    /// Copies the marked (or selected) entries into the split peer's
    /// directory (see `transfer_to_other_pane`).
    pub fn copy_to_other_pane(&mut self)
        requires
            old(self).wf(),
        ensures
            transfer_effect(*old(self), *final(self), TransferKind::Copy),
    {
        self.transfer_to_other_pane(TransferKind::Copy);
    }

    /// Moves the marked (or selected) entries into the split peer's
    /// directory (see `transfer_to_other_pane`).
    pub fn move_to_other_pane(&mut self)
        requires
            old(self).wf(),
        ensures
            transfer_effect(*old(self), *final(self), TransferKind::Move),
    {
        self.transfer_to_other_pane(TransferKind::Move);
    }
    /// Reports how a requested transfer went (`outcomes` tells, pair by
    /// pair, whether it succeeded; `skipped` pairs were left out) and lists
    /// again: after a move the active tab is unmarked and listed, and in
    /// either case the peer tab `peer` is listed when it exists.
    pub fn finish_transfer(&mut self, kind: TransferKind, peer: usize, skipped: usize, outcomes: &Vec<bool>)
        requires
            old(self).wf(),
            old(self).headroom(),
        ensures
            final(self).wf(),
            final(self).status_message@ == transfer_text(
                if kind == TransferKind::Copy {
                    "Copied"@
                } else {
                    "Moved"@
                },
                count_true(outcomes@),
                skipped as nat,
                (outcomes@.len() - count_true(outcomes@)) as nat,
            ),
            final(self).active_tab == old(self).active_tab,
            final(self).split_tab == old(self).split_tab,
            final(self).config == old(self).config,
            final(self).tabs@.len() == old(self).tabs@.len(),
            kind == TransferKind::Move ==> final(self).active().marked@.len() == 0,
            forall|i: int|
                0 <= i < old(self).tabs@.len() && i != old(self).active_tab && i != peer
                    ==> final(self).tabs@[i] == old(self).tabs@[i],
            final(self).requests@ == old(self).requests@ + (if kind == TransferKind::Move {
                seq![
                    AppRequest::List {
                        path: old(self).active().current_working_directory,
                        generation: (old(self).next_generation + 1) as u64,
                        options: options_of(old(self).config),
                    },
                ]
            } else {
                Seq::empty()
            }) + (if peer < old(self).tabs@.len() {
                seq![
                    AppRequest::List {
                        path: old(self).tabs@[peer as int].current_working_directory,
                        generation: final(self).next_generation,
                        options: options_of(old(self).config),
                    },
                ]
            } else {
                Seq::empty()
            }),
            peer < old(self).tabs@.len() ==> final(self).tabs@[peer as int].generation == final(self).next_generation,
    {
        let (ok, failed) = count_outcomes(outcomes);
        if kind == TransferKind::Move {
            self.clear_marks();
        }
        let s = match kind {
            TransferKind::Copy => transfer_status("Copied", ok, skipped, failed),
            TransferKind::Move => transfer_status("Moved", ok, skipped, failed),
        };
        self.status_message = s;
        if kind == TransferKind::Move {
            self.refresh();
        }
        if peer < self.tabs.len() {
            let saved = self.active_tab;
            self.active_tab = peer;
            self.refresh();
            self.active_tab = saved;
        }
        assert(self.requests@ =~= old(self).requests@ + (if kind == TransferKind::Move {
            seq![
                AppRequest::List {
                    path: old(self).active().current_working_directory,
                    generation: (old(self).next_generation + 1) as u64,
                    options: options_of(old(self).config),
                },
            ]
        } else {
            Seq::empty()
        }) + (if peer < old(self).tabs@.len() {
            seq![
                AppRequest::List {
                    path: old(self).tabs@[peer as int].current_working_directory,
                    generation: self.next_generation,
                    options: options_of(old(self).config),
                },
            ]
        } else {
            Seq::empty()
        }));
    }
}

} // verus!
