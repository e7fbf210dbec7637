//! Switching a monitor's active video input between DisplayPort and
//! Mini-DisplayPort.
//!
//! The library decides everything that does not touch the operating system:
//! which input a command-line word names, which external control utility is
//! run and with which arguments, and what the outcome of that run means for
//! the caller. Launching the utility is left to the program around it.
mod command;
mod error;
mod laws;
mod outcome;
mod parse;
mod plan;
mod selector;

pub use command::{build_command, command_spec, CommandLine, CommandView, Platform, DDM_PATH};
pub use error::SwitchError;
pub use laws::{lemma_accepted_words, lemma_command_deterministic, lemma_token_tables};
pub use outcome::{failure_stderr, failure_stdout, interpret_run, RunReport};
pub use parse::parse_input;
pub use plan::plan_switch;
pub use selector::DisplayInput;
