//! Path operations. Paths are held as strings; the operations on them are
//! those of `std::path`, the filesystem queries those of the running
//! system, and the home directory that of the `dirs` crate.

use vstd::prelude::*;
use std::path::Path;

verus! {

/// The path `Path::join` builds from `base` and `name` (on the target
/// platform's path syntax).
pub uninterp spec fn joined(base: Seq<char>, name: Seq<char>) -> Seq<char>;

/// `Path::join`: `name` adjoined to `base`. The contract names the result
/// `joined` and claims nothing more of it.
#[verifier::external_body]
pub(crate) fn path_join(base: &str, name: &str) -> (r: String)
    ensures
        r@ == joined(base@, name@),
{
    Path::new(base).join(name).to_string_lossy().into_owned()
}

/// The path `Path::parent` gives for `p`, or `None` at a root or for an
/// empty path.
pub uninterp spec fn parent_of(p: Seq<char>) -> Option<Seq<char>>;

/// `Path::parent`. The contract names the result `parent_of`.
#[verifier::external_body]
pub(crate) fn path_parent(p: &str) -> (r: Option<String>)
    ensures
        match r {
            Some(q) => parent_of(p@) == Some(q@),
            None => parent_of(p@) is None,
        },
{
    Path::new(p).parent().map(|q| q.to_string_lossy().into_owned())
}

/// The last component `Path::file_name` gives for `p`, if any.
pub uninterp spec fn file_name_of(p: Seq<char>) -> Option<Seq<char>>;

/// `Path::file_name`. The contract names the result `file_name_of`.
#[verifier::external_body]
pub(crate) fn path_file_name(p: &str) -> (r: Option<String>)
    ensures
        match r {
            Some(q) => file_name_of(p@) == Some(q@),
            None => file_name_of(p@) is None,
        },
{
    Path::new(p).file_name().map(|q| q.to_string_lossy().into_owned())
}

/// The extension `Path::extension` gives for `p`: what follows the last
/// `.` of the file name, if the name has one that does not start it.
pub uninterp spec fn extension_of(p: Seq<char>) -> Option<Seq<char>>;

/// `Path::extension`. The contract names the result `extension_of`.
#[verifier::external_body]
pub(crate) fn path_extension(p: &str) -> (r: Option<String>)
    ensures
        match r {
            Some(e) => extension_of(p@) == Some(e@),
            None => extension_of(p@) is None,
        },
{
    Path::new(p).extension().and_then(|e| e.to_str()).map(|e| e.to_string())
}

/// Whether `Path::is_absolute` holds of `p`.
pub uninterp spec fn absolute_path(p: Seq<char>) -> bool;

/// `Path::is_absolute`. The contract names the result `absolute_path`.
#[verifier::external_body]
pub(crate) fn path_is_absolute(p: &str) -> (r: bool)
    ensures
        r == absolute_path(p@),
{
    Path::new(p).is_absolute()
}

/// Whether `Path::starts_with` holds: `base` is a whole-component prefix
/// of `p`.
pub uninterp spec fn starts_with_path(p: Seq<char>, base: Seq<char>) -> bool;

/// `Path::starts_with`. The contract names the result `starts_with_path`.
#[verifier::external_body]
pub(crate) fn path_starts_with(p: &str, base: &str) -> (r: bool)
    ensures
        r == starts_with_path(p@, base@),
{
    Path::new(p).starts_with(base)
}

/// The number of components `Path::components` yields for `p`.
pub uninterp spec fn component_count(p: Seq<char>) -> nat;

/// `Path::components().count()`. The contract names the result
/// `component_count`.
#[verifier::external_body]
pub(crate) fn path_component_count(p: &str) -> (r: usize)
    ensures
        r == component_count(p@),
{
    Path::new(p).components().count()
}

/// `PathBuf::pop`: truncates the path to its parent and returns `true`, or
/// returns `false` and leaves it alone when there is no parent. The std
/// documentation defines `pop` by `parent`, which is what the contract
/// states.
#[verifier::external_body]
pub(crate) fn path_pop(p: &mut String) -> (r: bool)
    ensures
        r == (parent_of(old(p)@) is Some),
        r ==> final(p)@ == parent_of(old(p)@)->Some_0,
        !r ==> final(p)@ == old(p)@,
{
    let mut buf = std::path::PathBuf::from(p.as_str());
    let popped = buf.pop();
    *p = buf.to_string_lossy().into_owned();
    popped
}

/// `Path::canonicalize`: the absolute form of `p` with every symlink and
/// `.`/`..` resolved, or `None` when that fails (for instance when `p` does
/// not exist). The answer depends on the filesystem at the time of the
/// call, so the contract says nothing of it.
#[verifier::external_body]
pub(crate) fn canonicalize(p: &str) -> (r: Option<String>) {
    Path::new(p).canonicalize().ok().map(|q| q.to_string_lossy().into_owned())
}

/// `Path::is_dir`, which asks the filesystem; nothing is claimed of the
/// answer.
#[verifier::external_body]
pub(crate) fn path_is_dir(p: &str) -> (r: bool) {
    Path::new(p).is_dir()
}

/// `Path::exists`, which asks the filesystem; nothing is claimed of the
/// answer.
#[verifier::external_body]
pub(crate) fn path_exists(p: &str) -> (r: bool) {
    Path::new(p).exists()
}

/// `dirs::home_dir`: the user's home directory, read from the environment
/// or the user database, or `None`; a home that is not valid Unicode gives
/// `None`. Nothing is claimed of the answer.
#[verifier::external_body]
pub(crate) fn home_dir() -> (r: Option<String>) {
    dirs::home_dir().and_then(|h| h.to_str().map(|s| s.to_string()))
}

/// Whether `shellexpand::tilde` replaces the leading `~` of `s`: it stands
/// alone or is followed by a separator.
pub open spec fn tilde_expandable(s: Seq<char>) -> bool {
    s.len() > 0 && s[0] == '~' && (s.len() == 1 || s[1] == '/' || s[1] == '\\')
}

/// `shellexpand::tilde`: a leading `~` (alone or before `/`) is replaced by
/// the home directory when `dirs` finds one that is valid Unicode; any other
/// input comes back unchanged. The home directory depends on the
/// environment, so the contract says only that the result is the input or
/// some directory followed by the input without its `~`.
#[verifier::external_body]
pub(crate) fn expand_tilde(s: &str) -> (r: String)
    ensures
        r@ == s@ || (tilde_expandable(s@) && exists|h: Seq<char>| r@ == h + s@.drop_first()),
{
    shellexpand::tilde(s).into_owned()
}

} // verus!
