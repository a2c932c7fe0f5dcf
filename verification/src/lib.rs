//! Checks that a project runs from its own test suite: formatting, lints, and
//! golden-file snapshots of the command-line help and of the public interface.
//!
//! Everything here decides and nothing here touches the outside world. The
//! caller resolves the [`mode::RunMode`] once, runs the tools and reads or
//! writes the snapshot files, and hands this crate plain values:
//!
//! - [`fmt`] and [`clippy`] give the arguments of the formatting pass and of
//!   the lint pass; [`runner::judge_exit`] says what the tool's exit means.
//! - [`command::fix_help_width`] fixes the width of the help before it is
//!   taken. [`help_for_review`] renders a command tree into the two help
//!   documents, and [`api`] takes the description of the public interface;
//!   each document comes with the snapshot file that it is held against.
//! - [`oracle::access`] says how a snapshot file is accessed under the mode,
//!   and [`oracle::reconcile`] judges what came of the access.

pub mod command;
pub mod failure;
pub mod mode;
pub mod oracle;
pub mod runner;
pub mod snapshot;
pub mod tree;

pub use crate::runner::{clippy, fmt};
pub use crate::snapshot::{api, help_for_review};
