//! The answer of a plain background listing.

use vstd::prelude::*;
use crate::artifact::ArtifactListResult;

verus! {

/// A finished listing of `path`.
#[derive(Debug)]
pub enum AsyncAppEvent {
    BrowserDone { artifacts: ArtifactListResult, path: String },
}

} // verus!
