//! Planning and bookkeeping for compatibility runs: a library under test is
//! substituted into each of the projects that depend on it, and every
//! project is built before and after the substitution.
//!
//! The library starts no process and touches no file. It says which command
//! comes next and where the run goes once that command has ended; the caller
//! runs the commands.

pub mod command;
pub mod github;
pub mod model;
pub mod narration;
pub mod pipeline;
pub mod runner;
pub mod trace;
pub mod words;
