//! The dispatcher: the one line that describes the action a command asks for.

use crate::tasks::{
    LLaMaTasks, LLaMaTasksModel, Options, OptionsModel, WhisperTasks, WhisperTasksModel,
};
use vstd::prelude::*;
use vstd::string::StringExecFns;

verus! {

/// What `format!("{:?}", s)` writes for a string with characters `s`.
pub uninterp spec fn debug_quoted(s: Seq<char>) -> Seq<char>;

/// Relies on std's `Debug` impl for `str`: the characters between double
/// quotes, with quotes, backslashes and non-printable characters escaped. The
/// result depends on the characters alone.
#[verifier::external_body]
fn quote(s: &str) -> (r: String)
    ensures
        r@ == debug_quoted(s@),
{
    format!("{:?}", s)
}

/// `<verb> <quoted_in> => <quoted_out>`.
pub open spec fn transfer_text(verb: Seq<char>, quoted_in: Seq<char>, quoted_out: Seq<char>) -> Seq<
    char,
> {
    verb + " "@ + quoted_in + " => "@ + quoted_out
}

/// `Querying: <quoted>`.
pub open spec fn query_text(quoted: Seq<char>) -> Seq<char> {
    "Querying: "@ + quoted
}

pub open spec fn whisper_text(m: WhisperTasksModel) -> Seq<char> {
    match m {
        WhisperTasksModel::Transcribe { in_file, out_file } => transfer_text(
            "Transcribing"@,
            debug_quoted(in_file),
            debug_quoted(out_file),
        ),
        WhisperTasksModel::Translate { in_file, out_file } => transfer_text(
            "Translating"@,
            debug_quoted(in_file),
            debug_quoted(out_file),
        ),
    }
}

pub open spec fn llama_text(m: LLaMaTasksModel) -> Seq<char> {
    match m {
        LLaMaTasksModel::Query { query } => query_text(debug_quoted(query)),
    }
}

/// The line that describes a command: one branch for each action.
pub open spec fn describe_text(m: OptionsModel) -> Seq<char> {
    match m {
        OptionsModel::WhisperOptions { command } => whisper_text(command),
        OptionsModel::LLaMaOptions { command } => llama_text(command),
    }
}

/// The line of a file-to-file action, from its verb and its already quoted paths.
pub fn transfer_line(verb: &str, quoted_in: &str, quoted_out: &str) -> (r: String)
    ensures
        r@ == transfer_text(verb@, quoted_in@, quoted_out@),
{
    let mut s = String::from_str(verb);
    s.append(" ");
    s.append(quoted_in);
    s.append(" => ");
    s.append(quoted_out);
    s
}

/// The line of a query, from its already quoted text.
pub fn query_line(quoted: &str) -> (r: String)
    ensures
        r@ == query_text(quoted@),
{
    let s = String::from_str("Querying: ");
    s.concat(quoted)
}

/// Describes an action of the speech model.
pub fn whisper(cmd: &WhisperTasks) -> (r: String)
    ensures
        r@ == whisper_text(cmd@),
{
    match cmd {
        WhisperTasks::Transcribe { in_file, out_file } => {
            let a = quote(in_file.as_str());
            let b = quote(out_file.as_str());
            transfer_line("Transcribing", a.as_str(), b.as_str())
        },
        WhisperTasks::Translate { in_file, out_file } => {
            let a = quote(in_file.as_str());
            let b = quote(out_file.as_str());
            transfer_line("Translating", a.as_str(), b.as_str())
        },
    }
}

/// Describes an action of the language model.
pub fn llama(cmd: &LLaMaTasks) -> (r: String)
    ensures
        r@ == llama_text(cmd@),
{
    match cmd {
        LLaMaTasks::Query { query } => {
            let q = quote(query.as_str());
            query_line(q.as_str())
        },
    }
}

/// Describes any command: every variant has exactly one line, fixed by the
/// command's contents.
pub fn describe(opts: &Options) -> (r: String)
    ensures
        r@ == describe_text(opts@),
{
    match opts {
        Options::WhisperOptions { command } => whisper(command),
        Options::LLaMaOptions { command } => llama(command),
    }
}

} // verus!
