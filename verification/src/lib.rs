//! Observation and administration core for a local Linux server console:
//! the data model, the pure diagnostic rules and their reports, configuration
//! limits, and the guards around administrative commands.

pub mod actions;
pub mod app;
pub mod cli;
pub mod config;
pub mod diagnostics;
pub mod doctor;
pub mod error;
pub mod glossary;
pub mod glossary_panel;
pub mod keymap;
pub mod model;
pub mod persist;
pub mod preview;
pub mod profile;
pub mod sanitize;
pub mod seqs;
pub mod settings;
pub mod text;

use vstd::prelude::*;

verus! {

/// Product name shown in reports and messages.
pub const APP_NAME: &'static str = "server-tui";

/// Release of this package.
pub const APP_VERSION: &'static str = "0.1.0";

/// Name of the installed binary.
pub const BINARY_NAME: &'static str = "server-tui";

/// Directory name under the configuration and state directories.
pub const CONFIG_DIR_NAME: &'static str = "server-tui";

} // verus!
