//! Parsing of compiled terminfo entries.

pub mod compiled;
pub mod laws;
pub mod util;
