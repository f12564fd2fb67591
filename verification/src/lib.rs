//! A sequential orchestrator for shell-command test modules.
//!
//! A module is a Setup phase, a family of named Test groups, and a Teardown
//! phase, each an ordered list of shell commands. The engine runs the commands
//! one at a time, classifies every outcome into a closed result taxonomy, and
//! folds the results upward into per-set, per-family, and per-module reports
//! with a stop-on-first-failure policy for Setup and Tests and a run-to-the-end
//! policy for Teardown.

pub mod model;
pub mod output_formatter;
pub mod parser;
pub mod processor;
pub mod text;
