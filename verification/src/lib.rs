//! A keyboard-driven file explorer's model: directory listings, their
//! ordering and formatting, browser panes with tabs, history and bookmarks,
//! key handling and previews.

pub mod text;
pub mod artifact;
pub mod errors;
pub mod listing;
pub mod pathops;
pub mod config;
pub mod models;
pub mod events;
pub mod paths;
pub mod theme;
pub mod git;
pub mod filesystem;
pub mod ui;
pub mod cli;
