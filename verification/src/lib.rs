//! Lint configuration for a linter run: the record of denied, allowed and
//! warned lints, where its file is looked for, how it is read and written,
//! and the command line that it turns into.

pub mod command;
pub mod document;
pub mod error;
pub mod flags;
pub mod laws;
pub mod lints;
pub mod order;
pub mod search;
pub mod severity;
