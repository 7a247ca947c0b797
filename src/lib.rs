//! Renames files under a directory tree by changing their extension, optionally only
//! those with a line that matches a regular expression.
//!
//! The library holds the decisions: which configuration an invocation resolves to,
//! which files are candidates, whether a line matches, which path a file moves to,
//! and the counts of the final summary. Walking the tree, reading files and renaming
//! them is left to the caller, which hands what it finds to a [`Scanner`] and does
//! the [`Step`] it gets back.
pub mod config;
pub mod path;
pub mod pattern;
pub mod scan;

pub use config::{Config, ConfigError, Modo, CLOSING_TAG};
pub use pattern::Pattern;
pub use scan::{Scanner, Step, Summary};
