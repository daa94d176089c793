//! Key handling: the key model, the per-mode handlers and the navigation
//! steps they trigger.

pub mod input;
pub mod utils;
pub mod key;
pub mod keys;
