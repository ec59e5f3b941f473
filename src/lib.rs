//! Command-line surface of a multi-model tool: a grammar that turns the
//! argument tokens into a typed command, and a dispatcher that describes the
//! action each command asks for.
//!
//! `translate` yields [`WhisperTasks::Translate`], and its `--out` parameter is
//! required like that of `transcribe`: no output path is made up from the input.

pub mod diagnostics;
pub mod dispatch;
pub mod grammar;
pub mod tasks;

pub use diagnostics::usage;
pub use dispatch::{describe, llama, query_line, transfer_line, whisper};
pub use grammar::options;
pub use tasks::{CommandGroup, GrammarViolation, LLaMaTasks, Options, Param, WhisperTasks};
