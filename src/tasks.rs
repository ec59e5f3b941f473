//! The command values produced by the grammar, and their mathematical models.

use vstd::prelude::*;

verus! {

/// An action of the speech model.
#[derive(Debug, Clone, PartialEq, Eq)]
pub enum WhisperTasks {
    /// Write the text spoken in `in_file` to `out_file`.
    Transcribe { in_file: String, out_file: String },
    /// Write an English rendering of the speech in `in_file` to `out_file`.
    Translate { in_file: String, out_file: String },
}

/// An action of the language model.
#[derive(Debug, Clone, PartialEq, Eq)]
pub enum LLaMaTasks {
    /// Answer the free-form text `query`.
    Query { query: String },
}

/// One complete command: a model family and one action of it.
#[derive(Debug, Clone, PartialEq, Eq)]
pub enum Options {
    WhisperOptions { command: WhisperTasks },
    LLaMaOptions { command: LLaMaTasks },
}

/// Model of [`WhisperTasks`]: the paths as character sequences.
pub enum WhisperTasksModel {
    Transcribe { in_file: Seq<char>, out_file: Seq<char> },
    Translate { in_file: Seq<char>, out_file: Seq<char> },
}

/// Model of [`LLaMaTasks`].
pub enum LLaMaTasksModel {
    Query { query: Seq<char> },
}

/// Model of [`Options`].
pub enum OptionsModel {
    WhisperOptions { command: WhisperTasksModel },
    LLaMaOptions { command: LLaMaTasksModel },
}

impl View for WhisperTasks {
    type V = WhisperTasksModel;

    open spec fn view(&self) -> WhisperTasksModel {
        match self {
            WhisperTasks::Transcribe { in_file, out_file } => WhisperTasksModel::Transcribe {
                in_file: in_file@,
                out_file: out_file@,
            },
            WhisperTasks::Translate { in_file, out_file } => WhisperTasksModel::Translate {
                in_file: in_file@,
                out_file: out_file@,
            },
        }
    }
}

impl View for LLaMaTasks {
    type V = LLaMaTasksModel;

    open spec fn view(&self) -> LLaMaTasksModel {
        match self {
            LLaMaTasks::Query { query } => LLaMaTasksModel::Query { query: query@ },
        }
    }
}

impl View for Options {
    type V = OptionsModel;

    open spec fn view(&self) -> OptionsModel {
        match self {
            Options::WhisperOptions { command } => OptionsModel::WhisperOptions {
                command: command@,
            },
            Options::LLaMaOptions { command } => OptionsModel::LLaMaOptions { command: command@ },
        }
    }
}

/// The level of the grammar at which a subcommand name was expected.
#[derive(Debug, Clone, Copy, PartialEq, Eq, Structural)]
pub enum CommandGroup {
    /// The first token: `speech` or `language-model`.
    Root,
    /// After `speech`: `transcribe` or `translate`.
    Whisper,
    /// After `language-model`: `query`.
    LLaMa,
}

/// A required parameter of an action.
#[derive(Debug, Clone, Copy, PartialEq, Eq, Structural)]
pub enum Param {
    /// `--in` / `-i`, the audio file to read.
    InFile,
    /// `--out` / `-o`, the file to write.
    OutFile,
    /// The positional query text.
    Query,
}

/// Why an argument list is not a command. Positions count tokens from zero.
#[derive(Debug, Clone, Copy, PartialEq, Eq, Structural)]
pub enum GrammarViolation {
    /// The tokens ended where a subcommand of `group` was required.
    MissingCommand { group: CommandGroup },
    /// The token at `at` names no subcommand of `group`.
    UnknownCommand { group: CommandGroup, at: usize },
    /// The tokens ended without the required `param`.
    MissingParameter { param: Param },
    /// The flag of `param` at `at` is the last token, with no value after it.
    MissingValue { param: Param, at: usize },
    /// The flag of `param` at `at` repeats one given earlier (in either form).
    DuplicateParameter { param: Param, at: usize },
    /// The token at `at` is neither a known flag nor an expected value.
    UnexpectedToken { at: usize },
}

} // verus!
