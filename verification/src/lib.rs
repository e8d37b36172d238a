//! Terminal capability database library.
//!
//! The crate decodes compiled terminfo entries into a [`Database`] of typed
//! capability values, and interprets the parameterized escape language that
//! string capabilities carry, turning a capability plus a parameter list into
//! the literal bytes a terminal expects.

pub mod capability;
pub mod database;
pub mod error;
pub mod expand;
pub mod names;
pub mod parser;

pub use capability::{Capability, Value};
pub use database::Database;
pub use error::Error;
pub use expand::{Context, Expand, Parameter};
