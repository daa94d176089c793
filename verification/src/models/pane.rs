//! One browser pane: a working directory, its listing, the filter over it,
//! the selection, the navigation history and the marked entries.

use vstd::prelude::*;
use crate::artifact::{Artifact, ArtifactListResult, ArtifactType, clone_artifacts};
use crate::listing::{lowercase, to_lowercase};
use crate::models::previewer::Previewer;
use crate::pathops::canonicalize;
use crate::text::{has_substring, lines_of, str_contains, views};
use crate::git::{mark_views, parse_git_status, porcelain_marks, porcelain_text_readable};

verus! {

/// Independent browser state for one tab.
///
/// `selected` is the highlighted row of `entries_filtered` (it may lie past
/// the end, in which case nothing is selected). `marked` holds the paths of
/// the marked entries in the order they were marked; `git_marks` maps file
/// names to their git status letter.
#[derive(Debug)]
pub struct BrowserPane {
    pub current_working_directory: String,
    pub artifacts: Vec<Artifact>,
    pub selected: Option<usize>,
    pub filter_input: String,
    pub entries_cache: Vec<Artifact>,
    pub entries_filtered: Vec<Artifact>,
    pub history: Vec<String>,
    pub history_index: usize,
    pub generation: u64,
    pub previewer: Previewer,
    pub previewer_generation: u64,
    pub listing_partial: bool,
    pub marked: Vec<String>,
    pub git_marks: Vec<(String, char)>,
}

/// Whether an entry's name contains the (lowercased) filter text, ignoring
/// case.
pub open spec fn filter_matches(a: Artifact, needle: Seq<char>) -> bool {
    has_substring(lowercase(a.name@), needle)
}

/// The entries a filter text keeps, in order.
pub open spec fn filtered(entries: Seq<Artifact>, filter: Seq<char>) -> Seq<Artifact> {
    entries.filter(|a: Artifact| filter_matches(a, lowercase(filter)))
}

/// The selection after a list is (re)built: the first row, or none when the
/// list is empty.
pub open spec fn first_row(len: nat) -> Option<usize> {
    if len == 0 {
        None
    } else {
        Some(0usize)
    }
}

/// The selection kept after a listing of `len` rows replaces the old one:
/// the old row (or the first) clamped to the last row, or none.
pub open spec fn clamped_row(old: Option<usize>, len: nat) -> Option<usize> {
    if len == 0 {
        None
    } else {
        let row: int = match old {
            Some(r) => r as int,
            None => 0,
        };
        Some((if row < len - 1 { row } else { len - 1 }) as usize)
    }
}

/// The history after visiting `cwd`: unchanged when `cwd` is the current
/// entry, else cut after the current entry and extended by `cwd`.
pub open spec fn history_after_visit(history: Seq<String>, index: int, cwd: String) -> Seq<String> {
    if 0 <= index < history.len() && history[index]@ == cwd@ {
        history
    } else {
        history.subrange(0, index + 1).push(cwd)
    }
}

/// `q` is pane `p` after `apply_listing` shows the entries `arts`
/// (`partial` when the listing stopped early).
pub open spec fn listing_applied(p: BrowserPane, q: BrowserPane, arts: Seq<Artifact>, partial: bool) -> bool {
    &&& q.artifacts@ == arts
    &&& q.entries_cache@ == arts
    &&& q.listing_partial == partial
    &&& p.filter_input@.len() == 0 ==> q.entries_filtered@ == arts && q.selected == clamped_row(
        p.selected,
        arts.len(),
    )
    &&& p.filter_input@.len() != 0 ==> q.entries_filtered@ == filtered(arts, p.filter_input@)
        && q.selected == Some(0usize)
    &&& q.filter_input == p.filter_input
    &&& q.current_working_directory == p.current_working_directory
    &&& q.history == p.history
    &&& q.history_index == p.history_index
    &&& q.generation == p.generation
    &&& q.previewer == p.previewer
    &&& q.previewer_generation == p.previewer_generation
    &&& q.marked == p.marked
    &&& q.git_marks == p.git_marks
}

/// `after` is pane `before` after `BrowserPane::toggle_mark_selected`.
pub open spec fn toggle_mark_selected_effect(before: BrowserPane, after: BrowserPane) -> bool {
    &&& (match before.selected_entry() {
            None => after.marked == before.marked,
            Some(a) => if views(before.marked@).contains(a.path@) {
                exists|i: int|
                    0 <= i < before.marked@.len() && views(before.marked@)[i] == a.path@
                        && (forall|j: int|
                        0 <= j < i ==> views(before.marked@)[j] != a.path@) && views(
                        after.marked@,
                    ) == views(before.marked@).remove(i)
            } else {
                views(after.marked@) == views(before.marked@).push(a.path@)
            },
        })
    &&& (after.selected == before.selected)
    &&& (after.entries_filtered == before.entries_filtered)
    &&& (after.current_working_directory == before.current_working_directory)
    &&& (after.history == before.history)
    &&& (after.history_index == before.history_index)
    &&& (after.generation == before.generation)
    &&& (after.previewer_generation == before.previewer_generation)
}

impl BrowserPane {
    /// The pane's well-formedness: the history position is an entry of the
    /// history.
    pub open spec fn wf(&self) -> bool {
        self.history_index < self.history@.len()
    }

    /// The entry under the selection, if the selection is on a row.
    pub open spec fn selected_entry(&self) -> Option<Artifact> {
        match self.selected {
            Some(i) if i < self.entries_filtered@.len() => Some(self.entries_filtered@[i as int]),
            _ => None,
        }
    }

    /// A pane showing `listing` for `path`, with the first row selected,
    /// no filter, and `path` as its whole history.
    pub fn from_listing(path: String, listing: ArtifactListResult, generation: u64) -> (r: Self)
        ensures
            r.wf(),
            r.current_working_directory == path,
            r.artifacts@ == listing.artifacts@,
            r.entries_cache@ == listing.artifacts@,
            r.entries_filtered@ == listing.artifacts@,
            r.selected == first_row(listing.artifacts@.len()),
            r.filter_input@.len() == 0,
            views(r.history@) == seq![path@],
            r.history_index == 0,
            r.generation == generation,
            r.previewer == Previewer::Empty,
            r.previewer_generation == 0,
            r.listing_partial == listing.partial,
            r.marked@.len() == 0,
            r.git_marks@.len() == 0,
    {
        let artifacts = listing.artifacts;
        let selected = if artifacts.len() == 0 {
            None
        } else {
            Some(0)
        };
        let history = vec![path.clone()];
        let pane = BrowserPane {
            current_working_directory: path,
            artifacts: clone_artifacts(&artifacts),
            selected,
            filter_input: String::new(),
            entries_cache: clone_artifacts(&artifacts),
            entries_filtered: artifacts,
            history,
            history_index: 0,
            generation,
            previewer: Previewer::Empty,
            previewer_generation: 0,
            listing_partial: listing.partial,
            marked: Vec::new(),
            git_marks: Vec::new(),
        };
        assert(views(pane.history@) =~= seq![pane.current_working_directory@]);
        pane
    }

    /// The entry under the selection.
    pub fn selected_artifact(&self) -> (r: Option<&Artifact>)
        ensures
            match r {
                Some(a) => self.selected_entry() == Some(*a),
                None => self.selected_entry() is None,
            },
    {
        match self.selected {
            Some(i) => {
                if i < self.entries_filtered.len() {
                    Some(&self.entries_filtered[i])
                } else {
                    None
                }
            },
            None => None,
        }
    }

    /// Whether the selection is on a regular file.
    pub fn is_file_artifact(&self) -> (r: bool)
        ensures
            r == (self.selected_entry() matches Some(a) && a.artifact_type == ArtifactType::File),
    {
        match self.selected_artifact() {
            Some(a) => a.artifact_type == ArtifactType::File,
            None => false,
        }
    }

    /// Rebuilds the filtered rows from the cached listing: the entries whose
    /// name contains the filter text, ignoring case; the selection goes back
    /// to the first row (even when no row is left).
    pub fn apply_filter(&mut self)
        ensures
            final(self).entries_filtered@ == filtered(old(self).entries_cache@, old(self).filter_input@),
            final(self).selected == Some(0usize),
            final(self).entries_cache == old(self).entries_cache,
            final(self).artifacts == old(self).artifacts,
            final(self).filter_input == old(self).filter_input,
            final(self).current_working_directory == old(self).current_working_directory,
            final(self).history == old(self).history,
            final(self).history_index == old(self).history_index,
            final(self).generation == old(self).generation,
            final(self).previewer == old(self).previewer,
            final(self).previewer_generation == old(self).previewer_generation,
            final(self).listing_partial == old(self).listing_partial,
            final(self).marked == old(self).marked,
            final(self).git_marks == old(self).git_marks,
    {
        let needle = to_lowercase(self.filter_input.as_str());
        let ghost pred = |a: Artifact| filter_matches(a, lowercase(self.filter_input@));
        let mut out: Vec<Artifact> = Vec::new();
        let mut i: usize = 0;
        while i < self.entries_cache.len()
            invariant
                i <= self.entries_cache.len(),
                needle@ == lowercase(self.filter_input@),
                pred == (|a: Artifact| filter_matches(a, lowercase(self.filter_input@))),
                out@ == self.entries_cache@.subrange(0, i as int).filter(pred),
            decreases self.entries_cache.len() - i,
        {
            proof {
                reveal_with_fuel(Seq::<_>::filter, 1);
                assert(self.entries_cache@.subrange(0, i + 1).drop_last()
                    =~= self.entries_cache@.subrange(0, i as int));
            }
            let name = to_lowercase(self.entries_cache[i].name.as_str());
            if str_contains(name.as_str(), needle.as_str()) {
                out.push(self.entries_cache[i].clone());
            }
            i = i + 1;
        }
        assert(self.entries_cache@.subrange(0, self.entries_cache@.len() as int)
            =~= self.entries_cache@);
        self.entries_filtered = out;
        self.selected = Some(0);
    }

    /// Shows a new listing of the working directory: replaces the cached
    /// entries, re-applies a non-empty filter (which selects the first row),
    /// or else shows every entry and keeps the selection, clamped to the
    /// last row.
    pub fn apply_listing(&mut self, listing: ArtifactListResult)
        ensures
            listing_applied(*old(self), *final(self), listing.artifacts@, listing.partial),
    {
        self.artifacts = clone_artifacts(&listing.artifacts);
        self.entries_cache = clone_artifacts(&listing.artifacts);
        self.listing_partial = listing.partial;
        if self.filter_input.as_str().is_empty() {
            self.entries_filtered = listing.artifacts;
        } else {
            self.apply_filter();
            return;
        }
        if self.entries_filtered.len() == 0 {
            self.selected = None;
            return;
        }
        let row = match self.selected {
            Some(r) => r,
            None => 0,
        };
        let last = self.entries_filtered.len() - 1;
        self.selected = Some(if row < last { row } else { last });
    }

    /// Records `cwd` as the current history entry (see
    /// `history_after_visit`).
    pub fn record_history_as(&mut self, cwd: String)
        requires
            old(self).wf(),
        ensures
            final(self).wf(),
            final(self).history@ == history_after_visit(old(self).history@, old(self).history_index as int, cwd),
            final(self).history_index == final(self).history@.len() - 1 || final(self).history@
                == old(self).history@ && final(self).history_index == old(self).history_index,
            final(self).current_working_directory == old(self).current_working_directory,
            final(self).artifacts == old(self).artifacts,
            final(self).entries_cache == old(self).entries_cache,
            final(self).entries_filtered == old(self).entries_filtered,
            final(self).selected == old(self).selected,
            final(self).filter_input == old(self).filter_input,
            final(self).generation == old(self).generation,
            final(self).previewer == old(self).previewer,
            final(self).previewer_generation == old(self).previewer_generation,
            final(self).listing_partial == old(self).listing_partial,
            final(self).marked == old(self).marked,
            final(self).git_marks == old(self).git_marks,
    {
        if self.history[self.history_index] == cwd {
            return;
        }
        let n = self.history.len();
        assert(self.history_index < n);
        self.history.truncate(self.history_index + 1);
        self.history.push(cwd);
        self.history_index = self.history.len() - 1;
    }

    /// Records the canonical form of the working directory (or the working
    /// directory itself when it cannot be canonicalized) in the history.
    pub fn record_history(&mut self)
        requires
            old(self).wf(),
        ensures
            final(self).wf(),
            exists|cwd: String|
                final(self).history@ == history_after_visit(
                    old(self).history@,
                    old(self).history_index as int,
                    cwd,
                ),
            final(self).current_working_directory == old(self).current_working_directory,
            final(self).selected == old(self).selected,
            final(self).entries_filtered == old(self).entries_filtered,
            final(self).generation == old(self).generation,
            final(self).previewer_generation == old(self).previewer_generation,
    {
        let cwd = match canonicalize(self.current_working_directory.as_str()) {
            Some(c) => c,
            None => self.current_working_directory.clone(),
        };
        self.record_history_as(cwd);
    }

    /// Marks the selected entry, or unmarks it if it was marked.
    pub fn toggle_mark_selected(&mut self)
        ensures
            toggle_mark_selected_effect(*old(self), *final(self)),
    {
        let path = match self.selected_artifact() {
            Some(a) => a.path.clone(),
            None => return,
        };
        let mut i: usize = 0;
        while i < self.marked.len()
            invariant
                i <= self.marked.len(),
                *self == *old(self),
                old(self).selected_entry() matches Some(a) && a.path@ == path@,
                forall|j: int| 0 <= j < i ==> self.marked@[j]@ != path@,
            decreases self.marked.len() - i,
        {
            if self.marked[i] == path {
                proof {
                    assert(views(self.marked@)[i as int] == path@);
                    assert(forall|j: int| 0 <= j < i ==> views(self.marked@)[j] != path@);
                }
                let ghost before = views(self.marked@);
                self.marked.remove(i);
                assert(views(self.marked@) =~= before.remove(i as int));
                return;
            }
            i = i + 1;
        }
        assert(!views(self.marked@).contains(path@));
        let ghost before = views(self.marked@);
        self.marked.push(path);
        assert(views(self.marked@) =~= before.push(path@));
    }

    /// Unmarks everything.
    pub fn clear_marks(&mut self)
        ensures
            final(self).marked@.len() == 0,
            final(self).selected == old(self).selected,
            final(self).entries_filtered == old(self).entries_filtered,
            final(self).current_working_directory == old(self).current_working_directory,
            final(self).history == old(self).history,
            final(self).history_index == old(self).history_index,
            final(self).generation == old(self).generation,
            final(self).previewer_generation == old(self).previewer_generation,
    {
        self.marked.clear();
    }

    /// Replaces the git status letters with those of `git status
    /// --porcelain` output, or with none when git gave no output (outside a
    /// work tree, or without git). The output's lines must be readable
    /// (see `porcelain_readable`), as git's always are.
    pub fn refresh_git_marks(&mut self, git_output: Option<String>)
        requires
            git_output matches Some(t) ==> porcelain_text_readable(t@),
        ensures
            match git_output {
                Some(t) => mark_views(final(self).git_marks@) == porcelain_marks(lines_of(t@)),
                None => final(self).git_marks@.len() == 0,
            },
            *final(self) == (BrowserPane { git_marks: final(self).git_marks, ..*old(self) }),
    {
        self.git_marks = match git_output {
            Some(t) => parse_git_status(t.as_str()),
            None => Vec::new(),
        };
    }

    /// Replaces the git status letters.
    pub fn set_git_marks(&mut self, marks: Vec<(String, char)>)
        ensures
            final(self).git_marks@ == marks@,
            final(self).marked == old(self).marked,
            final(self).selected == old(self).selected,
            final(self).entries_filtered == old(self).entries_filtered,
            final(self).current_working_directory == old(self).current_working_directory,
            final(self).history == old(self).history,
            final(self).history_index == old(self).history_index,
            final(self).generation == old(self).generation,
            final(self).previewer_generation == old(self).previewer_generation,
    {
        self.git_marks = marks;
    }
}

/// No path is marked twice.
pub open spec fn marks_distinct(p: BrowserPane) -> bool {
    forall|i: int, j: int|
        0 <= i < p.marked@.len() && 0 <= j < p.marked@.len() && i != j ==> #[trigger] p.marked@[i]@
            != #[trigger] p.marked@[j]@
}

/// Toggling the mark of the same entry twice leaves the same paths marked.
pub proof fn lemma_toggle_twice(a: BrowserPane, b: BrowserPane, c: BrowserPane)
    requires
        marks_distinct(a),
        toggle_mark_selected_effect(a, b),
        toggle_mark_selected_effect(b, c),
    ensures
        forall|x: Seq<char>| views(c.marked@).contains(x) <==> views(a.marked@).contains(x),
{
    match a.selected_entry() {
        None => {},
        Some(e) => {
            assert(b.selected_entry() == Some(e));
            let va = views(a.marked@);
            let vb = views(b.marked@);
            let vc = views(c.marked@);
            if va.contains(e.path@) {
                let i = choose|i: int|
                    0 <= i < a.marked@.len() && va[i] == e.path@ && (forall|j: int| 0 <= j < i ==> va[j] != e.path@)
                        && vb == va.remove(i);
                assert(!vb.contains(e.path@)) by {
                    if vb.contains(e.path@) {
                        let k = choose|k: int| 0 <= k < vb.len() && vb[k] == e.path@;
                        if k < i {
                            assert(va[k] == e.path@);
                        } else {
                            assert(va[k + 1] == e.path@);
                            assert(a.marked@[k + 1]@ == a.marked@[i]@);
                        }
                    }
                }
                assert(vc == vb.push(e.path@));
                assert forall|x: Seq<char>| vc.contains(x) <==> va.contains(x) by {
                    if va.contains(x) && x != e.path@ {
                        let k = choose|k: int| 0 <= k < va.len() && va[k] == x;
                        if k < i {
                            assert(vb[k] == x);
                        } else {
                            assert(vb[k - 1] == x);
                        }
                        assert(vc[if k < i { k } else { k - 1 }] == x);
                    }
                    if va.contains(x) && x == e.path@ {
                        assert(vc[vb.len() as int] == x);
                    }
                    if vc.contains(x) {
                        let k = choose|k: int| 0 <= k < vc.len() && vc[k] == x;
                        if k == vb.len() {
                            assert(va[i] == x);
                        } else if k < i {
                            assert(va[k] == x);
                        } else {
                            assert(va[k + 1] == x);
                        }
                    }
                }
            } else {
                assert(vb == va.push(e.path@));
                assert(vb.contains(e.path@)) by {
                    assert(vb[va.len() as int] == e.path@);
                }
                let i = choose|i: int|
                    0 <= i < b.marked@.len() && vb[i] == e.path@ && (forall|j: int| 0 <= j < i ==> vb[j] != e.path@)
                        && vc == vb.remove(i);
                if i < va.len() {
                    assert(va[i] == e.path@);
                }
                assert(i == va.len());
                assert(vc =~= va);
            }
        },
    }
}

/// The filter keeps exactly the entries whose lowercased name contains
/// the lowercased filter text: every kept entry's name does, every entry
/// whose name does is kept, and nothing else is kept; so two entries with
/// the same name are kept or dropped alike, whatever their paths.
pub proof fn lemma_filter_keeps_by_name(entries: Seq<Artifact>, filter: Seq<char>)
    ensures
        forall|k: int|
            0 <= k < filtered(entries, filter).len() ==> has_substring(
                lowercase(#[trigger] filtered(entries, filter)[k].name@),
                lowercase(filter),
            ) && entries.contains(filtered(entries, filter)[k]),
        forall|i: int|
            0 <= i < entries.len() && has_substring(lowercase(entries[i].name@), lowercase(filter))
                ==> #[trigger] filtered(entries, filter).contains(entries[i]),
        forall|i: int, j: int|
            0 <= i < entries.len() && 0 <= j < entries.len() && entries[i].name@ == entries[j].name@
                && #[trigger] filtered(entries, filter).contains(entries[i]) ==> #[trigger] filtered(
                entries,
                filter,
            ).contains(entries[j]),
{
    let pred = |a: Artifact| filter_matches(a, lowercase(filter));
    broadcast use vstd::seq_lib::group_filter_ensures;
    assert forall|k: int| 0 <= k < filtered(entries, filter).len() implies has_substring(
        lowercase(#[trigger] filtered(entries, filter)[k].name@),
        lowercase(filter),
    ) && entries.contains(filtered(entries, filter)[k]) by {
        entries.lemma_filter_contains_rev(pred, filtered(entries, filter)[k]);
    }
    assert forall|i: int|
        0 <= i < entries.len() && has_substring(lowercase(entries[i].name@), lowercase(filter))
            implies #[trigger] filtered(entries, filter).contains(entries[i]) by {
        entries.lemma_filter_contains(pred, i);
    }
    assert forall|i: int, j: int|
        0 <= i < entries.len() && 0 <= j < entries.len() && entries[i].name@ == entries[j].name@
            && #[trigger] filtered(entries, filter).contains(entries[i]) implies #[trigger] filtered(
            entries,
            filter,
        ).contains(entries[j]) by {
        let f = filtered(entries, filter);
        let k = choose|k: int| 0 <= k < f.len() && f[k] == entries[i];
        assert(pred(f[k]));
        entries.lemma_filter_contains(pred, j);
    }
}

/// Visiting a new directory at history position `index` keeps exactly the
/// entries up to and including `index`, followed by the new directory: the
/// entries after `index` are dropped, so the entry before the new one is
/// entry `index`, where going back leads. Visiting the current entry
/// again changes nothing.
pub proof fn lemma_visit_drops_forward(history: Seq<String>, index: int, cwd: String)
    requires
        0 <= index < history.len(),
    ensures
        history[index]@ != cwd@ ==> {
            let h = history_after_visit(history, index, cwd);
            &&& h.len() == index + 2
            &&& forall|k: int| 0 <= k <= index ==> #[trigger] h[k] == history[k]
            &&& h[index + 1] == cwd
            &&& h[h.len() - 2] == history[index]
        },
        history[index]@ == cwd@ ==> history_after_visit(history, index, cwd) == history,
{
}

} // verus!
