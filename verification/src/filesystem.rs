//! The file-system layer: absolute paths, directory listings built from
//! the entries a directory yields, their order, and a cache of listings.
//!
//! Reading a directory is left to the caller, which hands each entry over
//! as a `ScannedEntry`; everything decided about the entries is done here.

use vstd::prelude::*;
use std::cmp::Ordering;
use crate::listing::{int_order, lemma_time_order, lowercase, ordering_of, ordering_value, time_order, time_order_exec, to_lowercase};
use crate::paths::{AbsolutePath, File, FileType, GitStatus};
use crate::pathops::{absolute_path, file_name_of, joined, parent_of, path_file_name, path_is_absolute, path_join, path_parent, path_starts_with, starts_with_path};
use crate::text::{lex_order, lex_order_exec, lemma_lex_order_antisymmetric, lemma_lex_order_transitive, str_eq, to_chars};

verus! {

/// The most entries a listing keeps.
pub const MAX_LISTED: usize = 50000;

/// Why a directory could not be listed.
#[derive(Debug)]
pub enum FileSystemError {
    NotFound(String),
    PermissionDenied(String),
    Io(std::io::Error),
    InvalidPath(String),
}

/// Whether a name marks a hidden entry: it starts with a dot and is not the
/// parent link `..`.
pub open spec fn hidden_entry_name(name: Seq<char>) -> bool {
    name.len() > 0 && name[0] == '.' && name != ".."@
}

/// Whether `name` is hidden: it starts with a dot and is not `..`.
pub fn is_hidden_name(name: &str) -> (r: bool)
    ensures
        r == hidden_entry_name(name@),
{
    let v = to_chars(name);
    v.len() > 0 && v[0] == '.' && !str_eq(name, "..")
}

/// The kind of an entry from its file type's three tests, in the order they
/// are asked: directory, regular file, symbolic link.
pub open spec fn file_kind(is_dir: bool, is_file: bool, is_symlink: bool) -> FileType {
    if is_dir {
        FileType::Directory
    } else if is_file {
        FileType::File
    } else if is_symlink {
        FileType::Symlink
    } else {
        FileType::Other
    }
}

/// The kind of an entry from its file type's tests (`is_symlink` also holds
/// when the path itself is a symbolic link).
pub fn classify_file_type(is_dir: bool, is_file: bool, is_symlink: bool) -> (r: FileType)
    ensures
        r == file_kind(is_dir, is_file, is_symlink),
{
    if is_dir {
        return FileType::Directory;
    }
    if is_file {
        return FileType::File;
    }
    if is_symlink {
        return FileType::Symlink;
    }
    FileType::Other
}

/// The absolute form of `path`: itself when it is absolute, else joined to
/// the working directory `cwd`.
pub open spec fn absolute_of(path: Seq<char>, cwd: Seq<char>) -> Seq<char> {
    if absolute_path(path) {
        path
    } else {
        joined(cwd, path)
    }
}

/// `path` made absolute against the working directory `cwd`.
pub fn absolute(path: &str, cwd: &str) -> (r: AbsolutePath)
    ensures
        r.0@ == absolute_of(path@, cwd@),
{
    if path_is_absolute(path) {
        AbsolutePath(path.to_string())
    } else {
        AbsolutePath(path_join(cwd, path))
    }
}

/// The parent directory of `path` (made absolute against `cwd`), or `None`
/// at a root.
pub fn parent(path: &AbsolutePath, cwd: &str) -> (r: Option<AbsolutePath>)
    ensures
        match parent_of(path.0@) {
            Some(q) => r matches Some(p) && p.0@ == absolute_of(q, cwd@),
            None => r is None,
        },
{
    match path_parent(path.0.as_str()) {
        Some(q) => Some(absolute(q.as_str(), cwd)),
        None => None,
    }
}

/// `name` inside the directory `parent`.
pub fn join(parent: &AbsolutePath, name: &str) -> (r: AbsolutePath)
    ensures
        r.0@ == joined(parent.0@, name@),
{
    AbsolutePath(path_join(parent.0.as_str(), name))
}

/// Whether `path` lies under one of `roots` (every path is allowed when
/// there are no roots).
pub fn assert_allowed(path: &AbsolutePath, roots: &Vec<AbsolutePath>) -> (r: bool)
    ensures
        r == (roots@.len() == 0 || exists|i: int|
            0 <= i < roots@.len() && starts_with_path(path.0@, #[trigger] roots@[i].0@)),
{
    if roots.len() == 0 {
        return true;
    }
    let mut i: usize = 0;
    while i < roots.len()
        invariant
            i <= roots@.len(),
            forall|j: int| 0 <= j < i ==> !starts_with_path(path.0@, #[trigger] roots@[j].0@),
        decreases roots.len() - i,
    {
        if path_starts_with(path.0.as_str(), roots[i].0.as_str()) {
            return true;
        }
        i = i + 1;
    }
    false
}

/// What a listing entry is, in terms of views.
pub struct FileModel {
    pub name: Seq<char>,
    pub path: Seq<char>,
    pub kind: FileType,
    pub size: Option<u64>,
    pub modified: Option<(i64, u32)>,
    pub hidden: bool,
    pub git_status: Option<GitStatus>,
    pub is_parent_link: bool,
}

impl View for File {
    type V = FileModel;

    open spec fn view(&self) -> FileModel {
        FileModel {
            name: self.name@,
            path: self.path.0@,
            kind: self.kind,
            size: self.size,
            modified: self.modified,
            hidden: self.hidden,
            git_status: self.git_status,
            is_parent_link: self.is_parent_link,
        }
    }
}

/// The views of a list of entries.
pub open spec fn file_models(v: Seq<File>) -> Seq<FileModel> {
    v.map_values(|f: File| f@)
}

/// How listings are ordered after the parent link and the directories.
#[derive(Debug, Clone, Copy, PartialEq, Eq, Structural)]
pub enum DirectorySortOrder {
    Name,
    Size,
    Modified,
}

/// The order of two listing entries (negative: `a` first): the parent link
/// first, directories before everything else, then by lowercase name, by
/// size (largest first, a missing size counting as zero) or by time (newest
/// first), those two falling back to the name.
pub open spec fn file_order(a: FileModel, b: FileModel, order: DirectorySortOrder) -> int {
    if a.is_parent_link {
        -1
    } else if b.is_parent_link {
        1
    } else {
        let a_dir = a.kind == FileType::Directory;
        let b_dir = b.kind == FileType::Directory;
        if a_dir && !b_dir {
            -1
        } else if !a_dir && b_dir {
            1
        } else {
            match order {
                DirectorySortOrder::Name => lex_order(lowercase(a.name), lowercase(b.name)),
                DirectorySortOrder::Size => {
                    let by_size = int_order(size_or_zero(b.size), size_or_zero(a.size));
                    if by_size != 0 {
                        by_size
                    } else {
                        lex_order(a.name, b.name)
                    }
                },
                DirectorySortOrder::Modified => {
                    let by_time = time_order(b.modified, a.modified);
                    if by_time != 0 {
                        by_time
                    } else {
                        lex_order(a.name, b.name)
                    }
                },
            }
        }
    }
}

/// A size, or zero when there is none.
pub open spec fn size_or_zero(s: Option<u64>) -> int {
    match s {
        Some(n) => n as int,
        None => 0,
    }
}

fn size_rank(a: Option<u64>, b: Option<u64>) -> (r: i8)
    ensures
        r as int == int_order(size_or_zero(a), size_or_zero(b)),
{
    let x = match a {
        Some(n) => n,
        None => 0,
    };
    let y = match b {
        Some(n) => n,
        None => 0,
    };
    if x < y {
        -1
    } else if x > y {
        1
    } else {
        0
    }
}

fn name_rank(a: &String, b: &String) -> (r: i8)
    ensures
        r as int == lex_order(a@, b@),
{
    let x = to_chars(a.as_str());
    let y = to_chars(b.as_str());
    lex_order_exec(&x, &y)
}

fn lower_name_rank(a: &String, b: &String) -> (r: i8)
    ensures
        r as int == lex_order(lowercase(a@), lowercase(b@)),
{
    let x = to_chars(to_lowercase(a.as_str()).as_str());
    let y = to_chars(to_lowercase(b.as_str()).as_str());
    lex_order_exec(&x, &y)
}

/// The listing order of two entries as a number: -1, 0 or 1.
fn file_rank(a: &File, b: &File, order: DirectorySortOrder) -> (r: i8)
    ensures
        r as int == file_order(a@, b@, order),
{
    if a.is_parent_link {
        return -1;
    }
    if b.is_parent_link {
        return 1;
    }
    let a_dir = a.kind == FileType::Directory;
    let b_dir = b.kind == FileType::Directory;
    if a_dir && !b_dir {
        return -1;
    }
    if !a_dir && b_dir {
        return 1;
    }
    match order {
        DirectorySortOrder::Name => lower_name_rank(&a.name, &b.name),
        DirectorySortOrder::Size => {
            let by_size = size_rank(b.size, a.size);
            if by_size != 0 {
                by_size
            } else {
                name_rank(&a.name, &b.name)
            }
        },
        DirectorySortOrder::Modified => {
            let by_time = time_order_exec(b.modified, a.modified);
            if by_time != 0 {
                by_time
            } else {
                name_rank(&a.name, &b.name)
            }
        },
    }
}

/// Compares two entries in listing order.
pub fn compare_entries(a: &File, b: &File, order: DirectorySortOrder) -> (r: Ordering)
    ensures
        ordering_value(r) == file_order(a@, b@, order),
{
    let v = file_rank(a, b, order);
    proof {
        lemma_lex_order_antisymmetric(lowercase(a@.name), lowercase(b@.name));
        lemma_lex_order_antisymmetric(a@.name, b@.name);
        lemma_time_order(b@.modified, a@.modified, a@.modified);
    }
    ordering_of(v)
}

/// Listing order is a total preorder among entries of which at most one is
/// the parent link: swapping two entries negates the comparison, and it is
/// transitive.
pub proof fn lemma_file_order_total_preorder(a: FileModel, b: FileModel, c: FileModel, order: DirectorySortOrder)
    requires
        !(a.is_parent_link && b.is_parent_link),
        !(b.is_parent_link && c.is_parent_link),
        !(a.is_parent_link && c.is_parent_link),
    ensures
        file_order(a, b, order) == -file_order(b, a, order),
        -1 <= file_order(a, b, order) <= 1,
        file_order(a, b, order) <= 0 && file_order(b, c, order) <= 0 ==> file_order(a, c, order) <= 0,
{
    lemma_lex_order_antisymmetric(lowercase(a.name), lowercase(b.name));
    lemma_lex_order_antisymmetric(lowercase(b.name), lowercase(c.name));
    lemma_lex_order_antisymmetric(lowercase(a.name), lowercase(c.name));
    lemma_lex_order_antisymmetric(a.name, b.name);
    lemma_lex_order_antisymmetric(b.name, c.name);
    lemma_lex_order_antisymmetric(a.name, c.name);
    lemma_time_order(b.modified, a.modified, c.modified);
    lemma_time_order(c.modified, b.modified, a.modified);
    lemma_time_order(a.modified, c.modified, b.modified);
    lemma_time_order(c.modified, a.modified, b.modified);
    if file_order(a, b, order) <= 0 && file_order(b, c, order) <= 0 {
        if lex_order(lowercase(a.name), lowercase(b.name)) <= 0 && lex_order(lowercase(b.name), lowercase(c.name))
            <= 0 {
            lemma_lex_order_transitive(lowercase(a.name), lowercase(b.name), lowercase(c.name));
        }
        if lex_order(a.name, b.name) <= 0 && lex_order(b.name, c.name) <= 0 {
            lemma_lex_order_transitive(a.name, b.name, c.name);
        }
    }
}

/// At most one entry of `v` is the parent link.
pub open spec fn at_most_one_link(v: Seq<FileModel>) -> bool {
    forall|i: int, j: int|
        0 <= i < v.len() && 0 <= j < v.len() && i != j && #[trigger] v[i].is_parent_link ==> !(
        #[trigger] v[j].is_parent_link)
}

/// `output` holds the entries of `input` in listing order, entries that
/// compare equal keeping their relative order.
pub open spec fn files_sorted_by(input: Seq<FileModel>, output: Seq<FileModel>, order: DirectorySortOrder) -> bool {
    exists|p: Seq<int>|
        {
            &&& crate::listing::is_permutation(p, input.len())
            &&& output.len() == input.len()
            &&& forall|k: int| 0 <= k < output.len() ==> #[trigger] output[k] == input[p[k]]
            &&& forall|k: int, l: int|
                0 <= k < l < output.len() ==> file_order(#[trigger] output[k], #[trigger] output[l], order)
                    < 0 || (file_order(output[k], output[l], order) == 0 && p[k] < p[l])
        }
}

/// `slice::sort_by` with `compare_entries` as the comparison. The std
/// documentation states that `sort_by` is stable and orders the slice by
/// the comparison, which must be a total order
/// (`lemma_file_order_total_preorder` shows it is one when at most one entry
/// is the parent link, as the contract requires); the contract claims that
/// the result is the stable sort of the input in listing order.
#[verifier::external_body]
fn sort_files(entries: &mut Vec<File>, order: DirectorySortOrder)
    requires
        at_most_one_link(file_models(old(entries)@)),
    ensures
        files_sorted_by(file_models(old(entries)@), file_models(final(entries)@), order),
{
    entries.sort_by(|a, b| compare_entries(a, b, order));
}

/// Sorts entries in listing order (the parent link first, directories
/// next, then by the chosen key); entries that compare equal keep their
/// order. At most one entry may be the parent link.
pub fn sort_entries(entries: &mut Vec<File>, order: DirectorySortOrder)
    requires
        at_most_one_link(file_models(old(entries)@)),
    ensures
        files_sorted_by(file_models(old(entries)@), file_models(final(entries)@), order),
{
    sort_files(entries, order);
}

/// How to list a directory.
#[derive(Debug, Clone, Copy, PartialEq, Eq, Structural)]
pub struct DirectoryListOptions {
    pub show_hidden: bool,
    pub sort: DirectorySortOrder,
    pub include_parent_link: bool,
}

impl Default for DirectoryListOptions {
    fn default() -> (r: Self)
        ensures
            r == (DirectoryListOptions {
                show_hidden: false,
                sort: DirectorySortOrder::Name,
                include_parent_link: true,
            }),
    {
        DirectoryListOptions { show_hidden: false, sort: DirectorySortOrder::Name, include_parent_link: true }
    }
}

/// An entry a listing could not read, with the reason.
#[derive(Debug)]
pub struct DirectoryListErrorRow {
    pub name: String,
    pub message: String,
}

/// A directory's listing: its entries, the time it was read (milliseconds
/// on the caller's monotonic clock), whether it stopped early, and the
/// entries it could not read.
#[derive(Debug)]
pub struct DirectoryListResult {
    pub path: AbsolutePath,
    pub entries: Vec<File>,
    pub read_at: u64,
    pub partial: bool,
    pub error_rows: Vec<DirectoryListErrorRow>,
}

/// What reading one entry of a directory gave.
#[derive(Debug)]
pub enum ScannedEntry {
    /// The entry itself could not be read.
    Unreadable { message: String },
    /// The entry at `path` was found but its metadata could not be read.
    NoMetadata { path: String, message: String },
    /// The entry at `path`, with its file type's tests (the symbolic-link
    /// test also holding when the path itself is a link), size and
    /// modification time.
    Read { path: String, is_dir: bool, is_file: bool, is_symlink: bool, size: u64, modified: Option<(i64, u32)> },
}

/// The name an entry is listed under: the last component of its path, or
/// the whole path when it has none.
pub open spec fn entry_name(path: Seq<char>) -> Seq<char> {
    match file_name_of(path) {
        Some(n) => n,
        None => path,
    }
}

/// The views of a list of error rows.
pub open spec fn row_views(v: Seq<DirectoryListErrorRow>) -> Seq<(Seq<char>, Seq<char>)> {
    v.map_values(|r: DirectoryListErrorRow| (r.name@, r.message@))
}

/// The entries and error rows a listing collects from the scanned entries
/// `raw[i..]`, given those collected so far, and whether it stopped early:
/// unreadable entries become error rows, hidden entries are skipped unless
/// shown, and once `MAX_LISTED` entries are kept the listing stops and is
/// partial.
pub open spec fn scan_directory(
    raw: Seq<ScannedEntry>,
    show_hidden: bool,
    i: nat,
    files: Seq<FileModel>,
    rows: Seq<(Seq<char>, Seq<char>)>,
) -> (Seq<FileModel>, Seq<(Seq<char>, Seq<char>)>, bool)
    decreases raw.len() - i,
{
    if i >= raw.len() {
        (files, rows, false)
    } else {
        match raw[i as int] {
            ScannedEntry::Unreadable { message } => scan_directory(
                raw,
                show_hidden,
                i + 1,
                files,
                rows.push(("(read error)"@, message@)),
            ),
            ScannedEntry::NoMetadata { path, message } => scan_directory(
                raw,
                show_hidden,
                i + 1,
                files,
                rows.push((entry_name(path@), message@)),
            ),
            ScannedEntry::Read { path, is_dir, is_file, is_symlink, size, modified } => {
                let name = entry_name(path@);
                let hidden = hidden_entry_name(name);
                if hidden && !show_hidden {
                    scan_directory(raw, show_hidden, i + 1, files, rows)
                } else {
                    let kept = files.push(
                        FileModel {
                            name,
                            path: path@,
                            kind: file_kind(is_dir, is_file, is_symlink),
                            size: Some(size),
                            modified,
                            hidden,
                            git_status: None,
                            is_parent_link: false,
                        },
                    );
                    if kept.len() >= MAX_LISTED {
                        (kept, rows, true)
                    } else {
                        scan_directory(raw, show_hidden, i + 1, kept, rows)
                    }
                }
            },
        }
    }
}

/// The parent-link row for a directory whose parent is `parent`.
pub open spec fn parent_link_model(parent: Seq<char>) -> FileModel {
    FileModel {
        name: ".."@,
        path: parent,
        kind: FileType::Directory,
        size: None,
        modified: None,
        hidden: false,
        git_status: None,
        is_parent_link: true,
    }
}

/// `entries` with the parent-link row of `path` in front, when `path` has
/// a parent.
pub open spec fn with_parent_link(path: Seq<char>, entries: Seq<FileModel>) -> Seq<FileModel> {
    match parent_of(path) {
        Some(q) => seq![parent_link_model(q)] + entries,
        None => entries,
    }
}

/// Puts the row leading to the parent of `path` in front of `entries`;
/// nothing changes at a root.
pub fn prepend_parent_link(path: &AbsolutePath, entries: &mut Vec<File>)
    ensures
        file_models(final(entries)@) == with_parent_link(path.0@, file_models(old(entries)@)),
{
    let parent_path = match path_parent(path.0.as_str()) {
        Some(q) => q,
        None => return ,
    };
    let link = File {
        name: String::from_str(".."),
        path: AbsolutePath(parent_path),
        kind: FileType::Directory,
        size: None,
        modified: None,
        hidden: false,
        git_status: None,
        is_parent_link: true,
    };
    entries.insert(0, link);
    assert(file_models(entries@) =~= with_parent_link(path.0@, file_models(old(entries)@)));
}

/// Builds the listing of the directory `path` from the entries reading it
/// gave, in the order it gave them: collects what `scan_directory`
/// collects, sorts the entries in the chosen order and puts the parent
/// link in front when asked to.
pub fn list_directories(path: AbsolutePath, opts: DirectoryListOptions, raw: Vec<ScannedEntry>, read_at: u64) -> (r: DirectoryListResult)
    ensures
        r.path == path,
        r.read_at == read_at,
        ({
            let scanned = scan_directory(raw@, opts.show_hidden, 0, Seq::empty(), Seq::empty());
            &&& r.partial == scanned.2
            &&& row_views(r.error_rows@) == scanned.1
            &&& exists|sorted: Seq<FileModel>|
                files_sorted_by(scanned.0, sorted, opts.sort) && file_models(r.entries@) == (if opts.include_parent_link {
                    with_parent_link(path.0@, sorted)
                } else {
                    sorted
                })
        }),
{
    let ghost all = raw@;
    let mut entries: Vec<File> = Vec::new();
    let mut error_rows: Vec<DirectoryListErrorRow> = Vec::new();
    let mut partial = false;
    assert(file_models(entries@) =~= Seq::<FileModel>::empty());
    assert(row_views(error_rows@) =~= Seq::<(Seq<char>, Seq<char>)>::empty());
    for entry in iter: raw.into_iter()
        invariant_except_break
            iter.seq() == all,
            !partial,
            file_models(entries@).len() < MAX_LISTED,
            forall|k: int| 0 <= k < entries@.len() ==> !(#[trigger] entries@[k]).is_parent_link,
            scan_directory(all, opts.show_hidden, 0, Seq::empty(), Seq::empty()) == scan_directory(
                all,
                opts.show_hidden,
                iter.index() as nat,
                file_models(entries@),
                row_views(error_rows@),
            ),
        ensures
            forall|k: int| 0 <= k < entries@.len() ==> !(#[trigger] entries@[k]).is_parent_link,
            scan_directory(all, opts.show_hidden, 0, Seq::empty(), Seq::empty()) == (
                file_models(entries@),
                row_views(error_rows@),
                partial,
            ),
    {
        assert(all[iter.index() as int] == entry);
        let ghost before_files = file_models(entries@);
        let ghost before_rows = row_views(error_rows@);
        match entry {
            ScannedEntry::Unreadable { message } => {
                error_rows.push(DirectoryListErrorRow { name: String::from_str("(read error)"), message });
                assert(row_views(error_rows@) =~= before_rows.push(("(read error)"@, all[iter.index() as int]->Unreadable_message@)));
            },
            ScannedEntry::NoMetadata { path, message } => {
                let name = match path_file_name(path.as_str()) {
                    Some(n) => n,
                    None => path,
                };
                error_rows.push(DirectoryListErrorRow { name, message });
                assert(row_views(error_rows@) =~= before_rows.push(
                    (entry_name(all[iter.index() as int]->NoMetadata_path@), all[iter.index() as int]->NoMetadata_message@),
                ));
            },
            ScannedEntry::Read { path, is_dir, is_file, is_symlink, size, modified } => {
                let name = match path_file_name(path.as_str()) {
                    Some(n) => n,
                    None => path.clone(),
                };
                let hidden = is_hidden_name(name.as_str());
                if !(hidden && !opts.show_hidden) {
                    let kind = classify_file_type(is_dir, is_file, is_symlink);
                    entries.push(
                        File {
                            name,
                            path: AbsolutePath(path),
                            kind,
                            size: Some(size),
                            modified,
                            hidden,
                            git_status: None,
                            is_parent_link: false,
                        },
                    );
                    assert(file_models(entries@) =~= before_files.push(file_models(entries@).last()));
                    if entries.len() >= MAX_LISTED {
                        partial = true;
                        break;
                    }
                }
            },
        }
    }
    proof {
        assert forall|i: int, j: int|
            0 <= i < file_models(entries@).len() && 0 <= j < file_models(entries@).len() && i != j
                && #[trigger] file_models(entries@)[i].is_parent_link implies !(
            #[trigger] file_models(entries@)[j].is_parent_link) by {
            assert(!entries@[i].is_parent_link);
        }
    }
    let ghost scanned_files = file_models(entries@);
    let ghost scanned = scan_directory(all, opts.show_hidden, 0, Seq::empty(), Seq::empty());
    assert(scanned.0 == scanned_files);
    assert(scanned.1 == row_views(error_rows@));
    assert(scanned.2 == partial);
    sort_entries(&mut entries, opts.sort);
    let ghost sorted = file_models(entries@);
    if opts.include_parent_link {
        prepend_parent_link(&path, &mut entries);
    }
    assert(files_sorted_by(scanned.0, sorted, opts.sort));
    assert(all == raw@);
    assert(file_models(entries@) == (if opts.include_parent_link {
        with_parent_link(path.0@, sorted)
    } else {
        sorted
    }));
    DirectoryListResult { path, entries, read_at, partial, error_rows }
}

impl Clone for DirectoryListErrorRow {
    fn clone(&self) -> (r: Self)
        ensures
            r == *self,
    {
        DirectoryListErrorRow { name: self.name.clone(), message: self.message.clone() }
    }
}

/// Two listings hold the same path, entries, time, completeness and error
/// rows.
pub open spec fn same_listing(a: DirectoryListResult, b: DirectoryListResult) -> bool {
    &&& a.path == b.path
    &&& a.entries@ == b.entries@
    &&& a.read_at == b.read_at
    &&& a.partial == b.partial
    &&& a.error_rows@ == b.error_rows@
}

impl Clone for DirectoryListResult {
    fn clone(&self) -> (r: Self)
        ensures
            same_listing(r, *self),
    {
        let mut entries: Vec<File> = Vec::new();
        let mut i: usize = 0;
        while i < self.entries.len()
            invariant
                i <= self.entries@.len(),
                entries@ =~= self.entries@.subrange(0, i as int),
            decreases self.entries.len() - i,
        {
            entries.push(self.entries[i].clone());
            i = i + 1;
        }
        assert(entries@ =~= self.entries@);
        let mut error_rows: Vec<DirectoryListErrorRow> = Vec::new();
        let mut j: usize = 0;
        while j < self.error_rows.len()
            invariant
                j <= self.error_rows@.len(),
                error_rows@ =~= self.error_rows@.subrange(0, j as int),
            decreases self.error_rows.len() - j,
        {
            error_rows.push(self.error_rows[j].clone());
            j = j + 1;
        }
        assert(error_rows@ =~= self.error_rows@);
        DirectoryListResult {
            path: self.path.clone(),
            entries,
            read_at: self.read_at,
            partial: self.partial,
            error_rows,
        }
    }
}

/// How many listings a cache keeps and for how long (milliseconds).
#[derive(Debug, Clone, Copy, PartialEq, Eq, Structural)]
pub struct CacheConfig {
    pub max_dirs: usize,
    pub ttl: u64,
}

/// Recently read listings, at most `max_entries` of them, each good for
/// `max_age` milliseconds after it was read.
#[derive(Debug)]
pub struct DirectoriesCache {
    max_entries: usize,
    max_age: u64,
    listings: Vec<DirectoryListResult>,
}

/// The position of the listing of `path` in `s` (the last one, should
/// there be several).
pub open spec fn listing_of(s: Seq<DirectoryListResult>, path: Seq<char>) -> Option<int>
    decreases s.len(),
{
    if s.len() == 0 {
        None
    } else if s.last().path.0@ == path {
        Some(s.len() - 1)
    } else {
        listing_of(s.drop_last(), path)
    }
}

/// How long before `now` a listing read at `read_at` was read (nothing if
/// the clock reads earlier).
pub open spec fn listing_age(now: u64, read_at: u64) -> int {
    if now >= read_at {
        now - read_at
    } else {
        0
    }
}

/// The listings kept after storing `result` in a cache with room for
/// `capacity` that held `s`: an older listing of the same path goes, and
/// the oldest listing goes when the cache is full; a cache without room
/// keeps nothing new.
pub open spec fn stored_after_insert(s: Seq<DirectoryListResult>, result: DirectoryListResult, capacity: nat) -> Seq<DirectoryListResult> {
    if capacity == 0 {
        s
    } else {
        let others = s.filter(|l: DirectoryListResult| l.path.0@ != result.path.0@);
        let room = if others.len() >= capacity {
            others.drop_first()
        } else {
            others
        };
        room.push(result)
    }
}

impl DirectoriesCache {
    /// How many listings the cache keeps at most.
    pub closed spec fn capacity(&self) -> nat {
        self.max_entries as nat
    }

    /// How long a listing stays good, in milliseconds.
    pub closed spec fn max_age_ms(&self) -> u64 {
        self.max_age
    }

    /// The listings held, oldest first.
    pub closed spec fn stored(&self) -> Seq<DirectoryListResult> {
        self.listings@
    }

    /// The cache holds no more listings than it has room for.
    pub open spec fn wf(&self) -> bool {
        self.stored().len() <= self.capacity()
    }

    /// An empty cache with the room and lifetime of `config`.
    pub fn new(config: &CacheConfig) -> (r: Self)
        ensures
            r.wf(),
            r.stored().len() == 0,
            r.capacity() == config.max_dirs,
            r.max_age_ms() == config.ttl,
    {
        DirectoriesCache { max_entries: config.max_dirs, max_age: config.ttl, listings: Vec::new() }
    }

    /// A copy of the listing of `path`, when there is one no older than the
    /// lifetime at time `now`.
    pub fn get(&self, path: &AbsolutePath, now: u64) -> (r: Option<DirectoryListResult>)
        ensures
            match listing_of(self.stored(), path.0@) {
                Some(i) => if listing_age(now, self.stored()[i].read_at) <= self.max_age_ms() {
                    r matches Some(l) && same_listing(l, self.stored()[i])
                } else {
                    r is None
                },
                None => r is None,
            },
            r matches Some(l) ==> l.path.0@ == path.0@ && listing_age(now, l.read_at) <= self.max_age_ms(),
    {
        proof {
            lemma_lookup_finds_path(self.stored(), path.0@);
        }
        let mut k = self.listings.len();
        assert(self.listings@.subrange(0, k as int) =~= self.listings@);
        while k > 0
            invariant
                k <= self.listings@.len(),
                listing_of(self.listings@, path.0@) == listing_of(self.listings@.subrange(0, k as int), path.0@),
            decreases k,
        {
            let i = k - 1;
            assert(self.listings@.subrange(0, k as int).drop_last() =~= self.listings@.subrange(0, i as int));
            if str_eq(self.listings[i].path.0.as_str(), path.0.as_str()) {
                let read_at = self.listings[i].read_at;
                let age = if now >= read_at {
                    now - read_at
                } else {
                    0
                };
                if age <= self.max_age {
                    return Some(self.listings[i].clone());
                }
                return None;
            }
            k = i;
        }
        None
    }

    /// Keeps the listings whose path is not `path` (or, with `under`, does
    /// not lie under `path`), in order.
    fn retain_paths(&mut self, path: &AbsolutePath, under: bool)
        requires
            old(self).wf(),
        ensures
            final(self).wf(),
            final(self).capacity() == old(self).capacity(),
            final(self).max_age_ms() == old(self).max_age_ms(),
            !under ==> final(self).stored() == old(self).stored().filter(
                |l: DirectoryListResult| l.path.0@ != path.0@,
            ),
            under ==> final(self).stored() == old(self).stored().filter(
                |l: DirectoryListResult| !starts_with_path(l.path.0@, path.0@),
            ),
    {
        let ghost pred = if under {
            |l: DirectoryListResult| !starts_with_path(l.path.0@, path.0@)
        } else {
            |l: DirectoryListResult| l.path.0@ != path.0@
        };
        let mut kept: Vec<DirectoryListResult> = Vec::new();
        let mut old_listings: Vec<DirectoryListResult> = Vec::new();
        std::mem::swap(&mut old_listings, &mut self.listings);
        let ghost all = old_listings@;
        for l in iter: old_listings.into_iter()
            invariant
                iter.seq() == all,
                kept@ == all.subrange(0, iter.index() as int).filter(pred),
                pred == (if under {
                    |l: DirectoryListResult| !starts_with_path(l.path.0@, path.0@)
                } else {
                    |l: DirectoryListResult| l.path.0@ != path.0@
                }),
        {
            proof {
                reveal_with_fuel(Seq::<_>::filter, 1);
                assert(all.subrange(0, iter.index() + 1).drop_last() =~= all.subrange(0, iter.index() as int));
                assert(all[iter.index() as int] == l);
            }
            let keep = if under {
                !path_starts_with(l.path.0.as_str(), path.0.as_str())
            } else {
                !str_eq(l.path.0.as_str(), path.0.as_str())
            };
            if keep {
                kept.push(l);
            }
        }
        assert(all.subrange(0, all.len() as int) =~= all);
        proof {
            all.lemma_filter_len(pred);
        }
        self.listings = kept;
    }

    /// Stores `result`, replacing an older listing of the same path and
    /// dropping the oldest listing when the cache is full; a cache without
    /// room stores nothing.
    pub fn insert(&mut self, result: DirectoryListResult)
        requires
            old(self).wf(),
        ensures
            final(self).wf(),
            final(self).capacity() == old(self).capacity(),
            final(self).max_age_ms() == old(self).max_age_ms(),
            final(self).stored() == stored_after_insert(old(self).stored(), result, old(self).capacity()),
    {
        if self.max_entries == 0 {
            return;
        }
        self.retain_paths(&result.path, false);
        if self.listings.len() >= self.max_entries {
            self.listings.remove(0);
        }
        self.listings.push(result);
    }

    /// Forgets the listing of `path`.
    pub fn invalidate(&mut self, path: &AbsolutePath)
        requires
            old(self).wf(),
        ensures
            final(self).wf(),
            final(self).capacity() == old(self).capacity(),
            final(self).max_age_ms() == old(self).max_age_ms(),
            final(self).stored() == old(self).stored().filter(|l: DirectoryListResult| l.path.0@ != path.0@),
    {
        self.retain_paths(path, false);
    }

    /// Forgets the listings of `path` and of every path under it.
    pub fn invalidate_tree_under(&mut self, path: &AbsolutePath)
        requires
            old(self).wf(),
        ensures
            final(self).wf(),
            final(self).capacity() == old(self).capacity(),
            final(self).max_age_ms() == old(self).max_age_ms(),
            final(self).stored() == old(self).stored().filter(
                |l: DirectoryListResult| !starts_with_path(l.path.0@, path.0@),
            ),
    {
        self.retain_paths(path, true);
    }
}

/// A cache with room gives back what was stored last: after storing
/// `result` in a cache that held at most `capacity` listings, looking up
/// its path finds `result`, and the cache still holds at most `capacity`.
pub proof fn lemma_insert_then_lookup(s: Seq<DirectoryListResult>, result: DirectoryListResult, capacity: nat)
    requires
        capacity > 0,
        s.len() <= capacity,
    ensures
        ({
            let after = stored_after_insert(s, result, capacity);
            &&& listing_of(after, result.path.0@) == Some(after.len() - 1)
            &&& after[after.len() - 1] == result
            &&& after.len() <= capacity
        }),
{
    s.lemma_filter_len(|l: DirectoryListResult| l.path.0@ != result.path.0@);
}

/// A lookup finds a listing of the path asked for: what `get` returns is
/// a listing of that path (and, by `get`'s contract, one read no longer
/// than the lifetime before).
pub proof fn lemma_lookup_finds_path(s: Seq<DirectoryListResult>, path: Seq<char>)
    ensures
        listing_of(s, path) matches Some(i) ==> 0 <= i < s.len() && s[i].path.0@ == path,
    decreases s.len(),
{
    if s.len() > 0 && s.last().path.0@ != path {
        lemma_lookup_finds_path(s.drop_last(), path);
    }
}

/// A listing stored in a cache with room is found again while it is
/// fresh: after `b` is `a` with `result` stored, a lookup of `result`'s
/// path at time `now`, no later than the lifetime after `result` was read,
/// finds `result` (which `get` then copies out). Ages count from when the
/// listing was read, which is when it was made to be stored.
pub proof fn lemma_insert_then_get(a: DirectoriesCache, b: DirectoriesCache, result: DirectoryListResult, now: u64)
    requires
        a.wf(),
        a.capacity() > 0,
        b.stored() == stored_after_insert(a.stored(), result, a.capacity()),
        b.max_age_ms() == a.max_age_ms(),
        listing_age(now, result.read_at) <= a.max_age_ms(),
    ensures
        listing_of(b.stored(), result.path.0@) matches Some(i) && b.stored()[i] == result
            && listing_age(now, b.stored()[i].read_at) <= b.max_age_ms(),
{
    lemma_insert_then_lookup(a.stored(), result, a.capacity());
}

} // verus!
