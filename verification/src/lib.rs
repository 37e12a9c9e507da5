//! A verified core for a directory-watching command runner.
//!
//! The library holds the decision logic of the tool: resolving the
//! configuration (mode, command, watch directories), planning watch
//! registration, coalescing bursts of filesystem events into single
//! command runs, and describing the console output of each run.  The
//! surrounding process (filesystem notification, process spawning,
//! terminal I/O) drives these functions from outside.

pub mod config;
pub mod engine;
pub mod runner;
pub mod split;
pub mod supervisor;
pub mod watch;
