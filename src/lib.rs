//! Update orchestration for a workstation: runs the package, application and
//! firmware updaters one after another or side by side, turns their exit codes
//! into outcomes, folds the outcomes into a summary and advises on rebooting.
//!
//! The decisions are made here and proved; spawning processes, reading their
//! output and talking to the terminal are left to the caller, which hands
//! plain values (exit codes, captured lines, flags) back in.

pub mod error;
pub mod text;
pub mod catalog;
pub mod runner;
pub mod operation;
pub mod summary;
pub mod updates;
pub mod cli;
pub mod config;
pub mod orchestrator;
pub mod reboot;
pub mod system;
