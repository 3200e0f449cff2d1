//! Reads the version that a project manifest declares and bumps it
//! (major, minor or patch).
//!
//! A run has two steps. [`workflow::plan`] finds out from the command line
//! what is to be done, without a manifest. [`workflow::workflow`] then takes
//! the text of the manifest and hands back what to report, the new text to
//! write, and the lines that show the change. Reading and writing the file
//! is left to the caller.

pub mod error;
pub mod args;
pub mod text;
pub mod number;
pub mod version;
pub mod diff;
pub mod manifest;
pub mod output;
pub mod workflow;
