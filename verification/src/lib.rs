//! Replay named sets of fixture files as HTTP POST requests.
//!
//! A configuration file maps scenario labels to lists of file paths.  The
//! library parses that configuration into `Scenario` records, formats the
//! scenario listing, selects a scenario by label, and builds the exact
//! per-file report lines that a run prints.  All I/O (reading the
//! configuration and fixture files, issuing the POST requests) is left to
//! the binary around the library.

pub mod config;
pub mod list;
pub mod run;
