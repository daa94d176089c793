//! The explorer's state: panes, previews, modes and the application itself.

pub mod mode;
pub mod previewer;
pub mod pane;
pub mod client;
pub mod async_app;
pub mod app;
pub mod actions;
