//! Listing a directory: which entries are kept, when a listing stops early,
//! and the order its entries are shown in.

use vstd::prelude::*;
use std::cmp::Ordering;
use crate::artifact::{Artifact, ArtifactListResult, ArtifactOptions, ArtifactSort, ArtifactType, MAX_ENTRIES};
use crate::errors::{FileSystemErrors, RTVUIError};
use crate::text::{ascii_lower, first_char, lex_order, lex_order_exec, to_chars, lemma_lex_order_antisymmetric, lemma_lex_order_transitive};

verus! {

/// Whether a name marks a hidden entry: it starts with a dot.
pub open spec fn hidden_name(name: Seq<char>) -> bool {
    name.len() > 0 && name[0] == '.'
}

/// Whether `name` is a dotfile name.
pub fn is_hidden(name: &str) -> (r: bool)
    ensures
        r == hidden_name(name@),
{
    match first_char(name) {
        Some(c) => c == '.',
        None => false,
    }
}

/// The lowercase form of a string, as `str::to_lowercase` computes it.
pub uninterp spec fn lowercase(s: Seq<char>) -> Seq<char>;

/// Whether every character of `s` is ASCII.
pub open spec fn all_ascii(s: Seq<char>) -> bool {
    forall|i: int| 0 <= i < s.len() ==> (#[trigger] s[i] as u32) < 0x80
}

/// `str::to_lowercase`: the Unicode lowercase mapping of every character.
/// The contract names its result `lowercase`; of ASCII text it states what
/// the std documentation gives, that each ASCII capital letter maps to its
/// small letter and every other ASCII character stays.
#[verifier::external_body]
pub(crate) fn to_lowercase(s: &str) -> (r: String)
    ensures
        r@ == lowercase(s@),
        all_ascii(s@) ==> r@ == ascii_lower(s@),
{
    s.to_lowercase()
}

/// The group an entry kind sorts into: directories, then symlinks, files,
/// and other entries.
pub open spec fn type_rank(t: ArtifactType) -> int {
    match t {
        ArtifactType::Directory => 0,
        ArtifactType::Symlink => 1,
        ArtifactType::File => 2,
        ArtifactType::Other => 3,
    }
}

/// The rank of an entry kind in listing order.
pub fn artifact_sort_rank(artifact_type: &ArtifactType) -> (r: u8)
    ensures
        r as int == type_rank(*artifact_type),
{
    match artifact_type {
        ArtifactType::Directory => 0,
        ArtifactType::Symlink => 1,
        ArtifactType::File => 2,
        ArtifactType::Other => 3,
    }
}

/// -1, 0 or 1 as `a` is below, equal to or above `b`.
pub open spec fn int_order(a: int, b: int) -> int {
    if a < b {
        -1
    } else if a > b {
        1
    } else {
        0
    }
}

/// The order of two optional timestamps: no time first, then by seconds and
/// nanoseconds.
pub open spec fn time_order(a: Option<(i64, u32)>, b: Option<(i64, u32)>) -> int {
    match (a, b) {
        (None, None) => 0,
        (None, Some(_)) => -1,
        (Some(_), None) => 1,
        (Some(x), Some(y)) => if x.0 != y.0 {
            int_order(x.0 as int, y.0 as int)
        } else {
            int_order(x.1 as int, y.1 as int)
        },
    }
}

/// The key names are compared by: their lowercase form.
pub open spec fn name_key(a: Artifact) -> Seq<char> {
    lowercase(a.name@)
}

/// The listing order of two entries (negative: `a` first): by kind, then by
/// the chosen key (name ascending, size descending, newest first), then by
/// lowercase name.
pub open spec fn artifact_order(a: Artifact, b: Artifact, sort: ArtifactSort) -> int {
    let by_kind = int_order(type_rank(a.artifact_type), type_rank(b.artifact_type));
    if by_kind != 0 {
        by_kind
    } else {
        let by_key = match sort {
            ArtifactSort::Name => lex_order(name_key(a), name_key(b)),
            ArtifactSort::Size => -int_order(a.size as int, b.size as int),
            ArtifactSort::Modified => -time_order(a.modified, b.modified),
        };
        if by_key != 0 {
            by_key
        } else {
            lex_order(name_key(a), name_key(b))
        }
    }
}

/// -1, 0 or 1 for `Less`, `Equal`, `Greater`.
pub open spec fn ordering_value(o: Ordering) -> int {
    match o {
        Ordering::Less => -1,
        Ordering::Equal => 0,
        Ordering::Greater => 1,
    }
}

fn rank_order(a: u8, b: u8) -> (r: i8)
    ensures
        r as int == int_order(a as int, b as int),
{
    if a < b {
        -1
    } else if a > b {
        1
    } else {
        0
    }
}

fn size_order(a: u64, b: u64) -> (r: i8)
    ensures
        r as int == int_order(a as int, b as int),
{
    if a < b {
        -1
    } else if a > b {
        1
    } else {
        0
    }
}

pub(crate) fn time_order_exec(a: Option<(i64, u32)>, b: Option<(i64, u32)>) -> (r: i8)
    ensures
        r as int == time_order(a, b),
{
    match (a, b) {
        (None, None) => 0,
        (None, Some(_)) => -1,
        (Some(_), None) => 1,
        (Some(x), Some(y)) => {
            if x.0 < y.0 {
                -1
            } else if x.0 > y.0 {
                1
            } else if x.1 < y.1 {
                -1
            } else if x.1 > y.1 {
                1
            } else {
                0
            }
        },
    }
}

pub(crate) fn ordering_of(v: i8) -> (r: Ordering)
    requires
        -1 <= v <= 1,
    ensures
        ordering_value(r) == v,
{
    if v < 0 {
        Ordering::Less
    } else if v > 0 {
        Ordering::Greater
    } else {
        Ordering::Equal
    }
}

/// Compares two entries in listing order.
pub fn sort_directory_function(a: &Artifact, b: &Artifact, sort: ArtifactSort) -> (r: Ordering)
    ensures
        ordering_value(r) == artifact_order(*a, *b, sort),
{
    let by_kind = rank_order(
        artifact_sort_rank(&a.artifact_type),
        artifact_sort_rank(&b.artifact_type),
    );
    if by_kind != 0 {
        return ordering_of(by_kind);
    }
    let key_a = to_chars(to_lowercase(a.name.as_str()).as_str());
    let key_b = to_chars(to_lowercase(b.name.as_str()).as_str());
    let by_name = lex_order_exec(&key_a, &key_b);
    let by_key = match sort {
        ArtifactSort::Name => by_name,
        ArtifactSort::Size => -size_order(a.size, b.size),
        ArtifactSort::Modified => -time_order_exec(a.modified, b.modified),
    };
    if by_key != 0 {
        ordering_of(by_key)
    } else {
        ordering_of(by_name)
    }
}


/// `int_order` and `time_order` are antisymmetric and transitive.
pub(crate) proof fn lemma_time_order(a: Option<(i64, u32)>, b: Option<(i64, u32)>, c: Option<(i64, u32)>)
    ensures
        time_order(a, b) == -time_order(b, a),
        -1 <= time_order(a, b) <= 1,
        time_order(a, b) <= 0 && time_order(b, c) <= 0 ==> time_order(a, c) <= 0,
{
}

/// Listing order is a total preorder: swapping the entries negates the
/// comparison, and it is transitive. (The sort below relies on this.)
pub proof fn lemma_artifact_order_total_preorder(
    a: Artifact,
    b: Artifact,
    c: Artifact,
    sort: ArtifactSort,
)
    ensures
        artifact_order(a, b, sort) == -artifact_order(b, a, sort),
        -1 <= artifact_order(a, b, sort) <= 1,
        artifact_order(a, b, sort) <= 0 && artifact_order(b, c, sort) <= 0 ==> artifact_order(
            a,
            c,
            sort,
        ) <= 0,
{
    lemma_lex_order_antisymmetric(name_key(a), name_key(b));
    lemma_lex_order_antisymmetric(name_key(b), name_key(c));
    lemma_lex_order_antisymmetric(name_key(a), name_key(c));
    lemma_time_order(a.modified, b.modified, c.modified);
    lemma_time_order(b.modified, c.modified, a.modified);
    lemma_time_order(c.modified, b.modified, a.modified);
    lemma_time_order(a.modified, c.modified, b.modified);
    if artifact_order(a, b, sort) <= 0 && artifact_order(b, c, sort) <= 0 {
        if lex_order(name_key(a), name_key(b)) <= 0 && lex_order(name_key(b), name_key(c)) <= 0 {
            lemma_lex_order_transitive(name_key(a), name_key(b), name_key(c));
        }
    }
}

/// `p` is a rearrangement of the positions `0..n`.
pub open spec fn is_permutation(p: Seq<int>, n: nat) -> bool {
    &&& p.len() == n
    &&& forall|i: int| 0 <= i < n ==> 0 <= #[trigger] p[i] < n
    &&& forall|i: int, j: int| 0 <= i < n && 0 <= j < n && i != j ==> p[i] != p[j]
}

/// `output` holds the entries of `input` in listing order, entries that
/// compare equal keeping their relative order.
pub open spec fn stable_sorted_by(input: Seq<Artifact>, output: Seq<Artifact>, sort: ArtifactSort) -> bool {
    exists|p: Seq<int>|
        {
            &&& is_permutation(p, input.len())
            &&& output.len() == input.len()
            &&& forall|k: int| 0 <= k < output.len() ==> #[trigger] output[k] == input[p[k]]
            &&& forall|k: int, l: int|
                0 <= k < l < output.len() ==> artifact_order(
                    #[trigger] output[k],
                    #[trigger] output[l],
                    sort,
                ) < 0 || (artifact_order(output[k], output[l], sort) == 0 && p[k] < p[l])
        }
}

/// `slice::sort_by` with `sort_directory_function` as the comparison. The
/// std documentation states that `sort_by` is stable and orders the slice by
/// the comparison; `lemma_artifact_order_total_preorder` shows the
/// comparison is a total preorder, as `sort_by` asks. The contract claims
/// exactly that: the result is the stable sort of the input in listing
/// order.
#[verifier::external_body]
fn sort_in_listing_order(v: &mut Vec<Artifact>, sort: ArtifactSort)
    ensures
        stable_sorted_by(old(v)@, final(v)@, sort),
{
    v.sort_by(|a, b| sort_directory_function(a, b, sort));
}

/// The entries a listing keeps from the raw entries `entries[i..]`, given
/// those kept so far, and whether it stopped early: an error ends the
/// listing with that error; hidden entries are skipped unless shown; once
/// `MAX_ENTRIES` entries are kept, any further entry marks the listing
/// partial and ends it.
pub open spec fn scan_entries(
    entries: Seq<Result<Artifact, std::io::Error>>,
    show_hidden: bool,
    i: nat,
    kept: Seq<Artifact>,
) -> Result<(Seq<Artifact>, bool), std::io::Error>
    decreases entries.len() - i,
{
    if i >= entries.len() {
        Ok((kept, false))
    } else if kept.len() >= MAX_ENTRIES {
        Ok((kept, true))
    } else {
        match entries[i as int] {
            Err(e) => Err(e),
            Ok(a) => if !show_hidden && hidden_name(a.name@) {
                scan_entries(entries, show_hidden, i + 1, kept)
            } else {
                scan_entries(entries, show_hidden, i + 1, kept.push(a))
            },
        }
    }
}

/// Builds a listing from the raw entries of a directory, in the order the
/// directory yielded them: keeps the entries `scan_entries` keeps and sorts
/// them in listing order; an entry that could not be read fails the listing
/// with an I/O error.
pub fn collect_artifact_entries(
    entries: Vec<Result<Artifact, std::io::Error>>,
    options: &ArtifactOptions,
) -> (r: Result<ArtifactListResult, RTVUIError>)
    ensures
        match scan_entries(entries@, options.show_hidden, 0, Seq::empty()) {
            Err(e) => r == Err::<ArtifactListResult, RTVUIError>(
                RTVUIError::FileSystemError(FileSystemErrors::Io(e)),
            ),
            Ok((kept, partial)) => r is Ok && r->Ok_0.partial == partial && stable_sorted_by(
                kept,
                r->Ok_0.artifacts@,
                options.sort,
            ),
        },
{
    let ghost all = entries@;
    let mut artifacts: Vec<Artifact> = Vec::new();
    let mut partial = false;
    for entry in iter: entries.into_iter()
        invariant_except_break
            iter.seq() == all,
            !partial,
            scan_entries(all, options.show_hidden, 0, Seq::empty()) == scan_entries(
                all,
                options.show_hidden,
                iter.index() as nat,
                artifacts@,
            ),
        ensures
            scan_entries(all, options.show_hidden, 0, Seq::empty()) == Ok::<
                (Seq<Artifact>, bool),
                std::io::Error,
            >((artifacts@, partial)),
    {
        assert(all[iter.index() as int] == entry);
        if artifacts.len() >= MAX_ENTRIES {
            partial = true;
            break;
        }
        match entry {
            Err(e) => {
                return Err(RTVUIError::FileSystemError(FileSystemErrors::Io(e)));
            },
            Ok(artifact) => {
                if options.show_hidden || !is_hidden(artifact.name.as_str()) {
                    artifacts.push(artifact);
                }
            },
        }
    }
    sort_in_listing_order(&mut artifacts, options.sort);
    Ok(ArtifactListResult { artifacts, partial })
}

/// The kind of an entry from its file type's three tests, in the order they
/// are asked.
pub fn artifact_type_of(is_dir: bool, is_file: bool, is_symlink: bool) -> (r: ArtifactType)
    ensures
        r == (if is_dir {
            ArtifactType::Directory
        } else if is_file {
            ArtifactType::File
        } else if is_symlink {
            ArtifactType::Symlink
        } else {
            ArtifactType::Other
        }),
{
    if is_dir {
        return ArtifactType::Directory;
    }
    if is_file {
        return ArtifactType::File;
    }
    if is_symlink {
        return ArtifactType::Symlink;
    }
    ArtifactType::Other
}

/// A listing keeps at most `MAX_ENTRIES` entries, exactly that many when it
/// stopped early, and no hidden entry unless hidden entries are shown.
pub proof fn lemma_listing_bounds(
    entries: Seq<Result<Artifact, std::io::Error>>,
    show_hidden: bool,
    i: nat,
    kept: Seq<Artifact>,
)
    requires
        kept.len() <= MAX_ENTRIES,
        !show_hidden ==> forall|k: int| 0 <= k < kept.len() ==> !hidden_name(#[trigger] kept[k].name@),
    ensures
        scan_entries(entries, show_hidden, i, kept) matches Ok((out, partial)) ==> {
            &&& out.len() <= MAX_ENTRIES
            &&& partial ==> out.len() == MAX_ENTRIES
            &&& !show_hidden ==> forall|k: int| 0 <= k < out.len() ==> !hidden_name(#[trigger] out[k].name@)
        },
    decreases entries.len() - i,
{
    if i < entries.len() && kept.len() < MAX_ENTRIES {
        match entries[i as int] {
            Err(_) => {},
            Ok(a) => if !show_hidden && hidden_name(a.name@) {
                lemma_listing_bounds(entries, show_hidden, i + 1, kept);
            } else {
                let k2 = kept.push(a);
                assert(!show_hidden ==> forall|k: int| 0 <= k < k2.len() ==> !hidden_name(#[trigger] k2[k].name@));
                lemma_listing_bounds(entries, show_hidden, i + 1, k2);
            },
        }
    }
}

/// Whether time `x` (seconds, nanoseconds) is after time `y`.
pub open spec fn later(x: (i64, u32), y: (i64, u32)) -> bool {
    x.0 > y.0 || (x.0 == y.0 && x.1 > y.1)
}

/// What listing order puts first, for every pair of entries and every
/// sort key: an entry of an earlier kind (directories first, then
/// symlinks, files, others) comes first whatever the key; among entries of
/// one kind, sorting by name puts the name that comes first ignoring case
/// first, sorting by size puts the larger first, and sorting by
/// modification time puts the later one first (an entry with a time before
/// one without).
pub proof fn lemma_listing_order_puts_first(a: Artifact, b: Artifact, sort: ArtifactSort)
    ensures
        a.artifact_type == ArtifactType::Directory && b.artifact_type != ArtifactType::Directory
            ==> artifact_order(a, b, sort) < 0,
        type_rank(a.artifact_type) < type_rank(b.artifact_type) ==> artifact_order(a, b, sort) < 0,
        a.artifact_type == b.artifact_type && lex_order(lowercase(a.name@), lowercase(b.name@)) < 0
            ==> artifact_order(a, b, ArtifactSort::Name) < 0,
        a.artifact_type == b.artifact_type && a.size > b.size ==> artifact_order(
            a,
            b,
            ArtifactSort::Size,
        ) < 0,
        a.artifact_type == b.artifact_type && a.modified is Some && b.modified is Some && later(
            a.modified->0,
            b.modified->0,
        ) ==> artifact_order(a, b, ArtifactSort::Modified) < 0,
        a.artifact_type == b.artifact_type && a.modified is Some && b.modified is None
            ==> artifact_order(a, b, ArtifactSort::Modified) < 0,
{
}

/// A listing of raw entries keeps at most 50,000 of them, exactly 50,000
/// when it stopped early, and, unless hidden entries are shown, no entry
/// whose name starts with a dot.
pub proof fn lemma_listing_drops_dotfiles(entries: Seq<Result<Artifact, std::io::Error>>, show_hidden: bool)
    ensures
        scan_entries(entries, show_hidden, 0, Seq::empty()) matches Ok((out, partial)) ==> {
            &&& out.len() <= 50_000
            &&& partial ==> out.len() == 50_000
            &&& !show_hidden ==> forall|k: int|
                0 <= k < out.len() ==> (#[trigger] out[k]).name@.len() == 0 || out[k].name@[0] != '.'
        },
{
    lemma_listing_bounds(entries, show_hidden, 0, Seq::empty());
}

} // verus!
