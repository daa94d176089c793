//! The command line: an optional directory to start in, and how the start
//! directory is chosen from it.

use vstd::prelude::*;
use crate::pathops::{parent_of, path_parent};

verus! {

/// The parsed command line.
#[derive(Debug)]
pub struct Cli {
    /// The directory (or a file within it) to start in; the working
    /// directory when absent.
    pub path: Option<String>,
}

/// Where the explorer starts: the working directory, a given directory
/// (to be canonicalized where possible), or the directory holding a given
/// file (to be canonicalized).
#[derive(Debug, PartialEq, Eq)]
pub enum StartPlan {
    WorkingDir,
    Directory(String),
    ParentOf(String),
}

/// Chooses where to start for the command-line path `path`, given the
/// filesystem's answers on whether it is a directory (`is_dir`) or a file
/// (`is_file`): a directory starts there, a file in its parent directory
/// (the working directory when it has none), and anything else, or no
/// path, in the working directory.
pub fn start_plan(path: Option<String>, is_dir: bool, is_file: bool) -> (r: StartPlan)
    ensures
        path is None ==> r == StartPlan::WorkingDir,
        path is Some && is_dir ==> r == StartPlan::Directory(path->0),
        path is Some && !is_dir && is_file ==> match parent_of(path->0@) {
            Some(q) => r matches StartPlan::ParentOf(x) && x@ == q,
            None => r == StartPlan::WorkingDir,
        },
        path is Some && !is_dir && !is_file ==> r == StartPlan::WorkingDir,
{
    match path {
        None => StartPlan::WorkingDir,
        Some(p) => if is_dir {
            StartPlan::Directory(p)
        } else if is_file {
            match path_parent(p.as_str()) {
                Some(q) => StartPlan::ParentOf(q),
                None => StartPlan::WorkingDir,
            }
        } else {
            StartPlan::WorkingDir
        },
    }
}

} // verus!
