//! Decision logic of a local deployment daemon: it keeps a working copy of a
//! remote repository fresh and restarts a supervised command after each fetch.
//!
//! The library decides and never acts. [`Main`] is the daemon as a machine
//! that is told what happened and says what to do next; the program around
//! it clones, fetches, starts and terminates. [`config`] makes the
//! configuration from the command line, with [`command`] and [`interval`]
//! reading the command and the pause from text. [`credentials`] negotiates
//! SSH credentials with libgit2, and [`supervisor`] keeps the handle of the
//! program that runs.

pub mod command;
pub mod config;
pub mod credentials;
pub mod daemon;
pub mod error;
pub mod interval;
pub mod supervisor;
pub mod text;

pub use crate::daemon::Main;
pub use crate::error::Error;
