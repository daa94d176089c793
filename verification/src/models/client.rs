//! The answers background work sends back to the explorer.

use vstd::prelude::*;
use crate::artifact::ArtifactListResult;
use crate::models::previewer::Previewer;

verus! {

/// A finished background request, carrying the number it was issued with.
#[derive(Debug)]
pub enum AsyncEvents {
    /// A directory listing; on failure `artifacts` is empty and `error`
    /// describes the failure.
    BrowserDone { generation: u64, artifacts: ArtifactListResult, path: String, error: Option<String> },
    /// A folder preview.
    FolderPreviewDone { generation: u64, previewer: Previewer },
    /// A file preview.
    PreviewerDone { generation: u64, previewer: Previewer },
}

} // verus!
