//! Path and entry types of the file-system layer.

use vstd::prelude::*;

verus! {

/// A path meant for display.
#[derive(Debug)]
pub struct DisplayPath(pub String);

/// A path that names its file from the root (see
/// `crate::filesystem::absolute`).
#[derive(Debug)]
pub struct AbsolutePath(pub String);

impl Clone for AbsolutePath {
    fn clone(&self) -> (r: Self)
        ensures
            r == *self,
    {
        AbsolutePath(self.0.clone())
    }
}

/// The kind of a directory entry.
#[derive(Debug, Clone, Copy, PartialEq, Eq, Structural)]
pub enum FileType {
    File,
    Directory,
    Symlink,
    Other,
}

/// An entry's state in a git work tree.
#[derive(Debug, Clone, Copy, PartialEq, Eq, Structural)]
pub enum GitStatus {
    Modified,
    Added,
    Deleted,
    Untracked,
    Ignored,
}

/// One directory entry as the file-system layer lists it.
///
/// `modified` is the modification time as whole seconds since the Unix
/// epoch and the nanoseconds within that second; `is_parent_link` marks
/// the `..` row that leads to the parent directory.
#[derive(Debug)]
pub struct File {
    pub name: String,
    pub path: AbsolutePath,
    pub kind: FileType,
    pub size: Option<u64>,
    pub modified: Option<(i64, u32)>,
    pub hidden: bool,
    pub git_status: Option<GitStatus>,
    pub is_parent_link: bool,
}

impl Clone for File {
    fn clone(&self) -> (r: Self)
        ensures
            r == *self,
    {
        File {
            name: self.name.clone(),
            path: self.path.clone(),
            kind: self.kind,
            size: self.size,
            modified: self.modified,
            hidden: self.hidden,
            git_status: self.git_status,
            is_parent_link: self.is_parent_link,
        }
    }
}

} // verus!
