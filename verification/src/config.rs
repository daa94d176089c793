//! The persisted configuration and the colour palettes of the themes.

pub mod app;
pub mod utils;
