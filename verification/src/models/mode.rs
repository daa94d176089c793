//! Interaction modes.

use vstd::prelude::*;

verus! {

/// What the explorer is doing.
#[derive(Debug, Clone, Copy, PartialEq, Eq, Structural)]
pub enum AppMode {
    Normal,
    Help,
    Input(InputKind),
    ConfirmDelete,
}

/// What a text input is for.
#[derive(Debug, Clone, Copy, PartialEq, Eq, Structural)]
pub enum InputKind {
    Filter,
    GoToPath,
    Rename,
}

impl AppMode {
    /// Whether the mode reads text input.
    pub fn is_input(&self) -> (r: bool)
        ensures
            r == (*self is Input),
    {
        match self {
            AppMode::Input(_) => true,
            _ => false,
        }
    }
}

} // verus!
