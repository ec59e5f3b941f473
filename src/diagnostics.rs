//! Human-readable text for grammar violations.

use crate::tasks::{CommandGroup, GrammarViolation, Param};
use vstd::prelude::*;
use vstd::string::StringExecFns;

verus! {

/// The whole grammar, one line for each action.
pub open spec fn usage_text() -> Seq<char> {
    "Usage:\n  speech transcribe (--in | -i) IN_FILE (--out | -o) OUT_FILE\n  speech translate (--in | -i) IN_FILE (--out | -o) OUT_FILE\n  language-model query QUERY"@
}

/// How a parameter is written on the command line.
pub open spec fn param_text(p: Param) -> Seq<char> {
    match p {
        Param::InFile => "--in"@,
        Param::OutFile => "--out"@,
        Param::Query => "QUERY"@,
    }
}

/// The subcommand names valid in a group.
pub open spec fn choices_text(g: CommandGroup) -> Seq<char> {
    match g {
        CommandGroup::Root => "speech, language-model"@,
        CommandGroup::Whisper => "transcribe, translate"@,
        CommandGroup::LLaMa => "query"@,
    }
}

pub open spec fn violation_text(e: GrammarViolation) -> Seq<char> {
    match e {
        GrammarViolation::MissingCommand { group } => "a command is required; expected one of: "@
            + choices_text(group),
        GrammarViolation::UnknownCommand { group, .. } => "unknown command; expected one of: "@
            + choices_text(group),
        GrammarViolation::MissingParameter { param } => "missing required parameter "@
            + param_text(param),
        GrammarViolation::MissingValue { param, .. } => param_text(param) + " requires a value"@,
        GrammarViolation::DuplicateParameter { param, .. } => param_text(param)
            + " is given more than once"@,
        GrammarViolation::UnexpectedToken { .. } => "unexpected argument"@,
    }
}

/// The usage message shown beside any violation.
pub fn usage() -> (r: &'static str)
    ensures
        r@ == usage_text(),
{
    "Usage:\n  speech transcribe (--in | -i) IN_FILE (--out | -o) OUT_FILE\n  speech translate (--in | -i) IN_FILE (--out | -o) OUT_FILE\n  language-model query QUERY"
}

fn param_str(p: Param) -> (r: &'static str)
    ensures
        r@ == param_text(p),
{
    match p {
        Param::InFile => "--in",
        Param::OutFile => "--out",
        Param::Query => "QUERY",
    }
}

fn choices_str(g: CommandGroup) -> (r: &'static str)
    ensures
        r@ == choices_text(g),
{
    match g {
        CommandGroup::Root => "speech, language-model",
        CommandGroup::Whisper => "transcribe, translate",
        CommandGroup::LLaMa => "query",
    }
}

impl GrammarViolation {
    /// A one-line description of the rule broken.
    pub fn message(&self) -> (r: String)
        ensures
            r@ == violation_text(*self),
    {
        match *self {
            GrammarViolation::MissingCommand { group } => String::from_str(
                "a command is required; expected one of: ",
            ).concat(choices_str(group)),
            GrammarViolation::UnknownCommand { group, .. } => String::from_str(
                "unknown command; expected one of: ",
            ).concat(choices_str(group)),
            GrammarViolation::MissingParameter { param } => String::from_str(
                "missing required parameter ",
            ).concat(param_str(param)),
            GrammarViolation::MissingValue { param, .. } => String::from_str(
                param_str(param),
            ).concat(" requires a value"),
            GrammarViolation::DuplicateParameter { param, .. } => String::from_str(
                param_str(param),
            ).concat(" is given more than once"),
            GrammarViolation::UnexpectedToken { .. } => String::from_str("unexpected argument"),
        }
    }

    /// The position of the offending token, where one token is at fault.
    pub fn position(&self) -> (r: Option<usize>)
        ensures
            r == (match *self {
                GrammarViolation::UnknownCommand { at, .. } => Some(at),
                GrammarViolation::MissingValue { at, .. } => Some(at),
                GrammarViolation::DuplicateParameter { at, .. } => Some(at),
                GrammarViolation::UnexpectedToken { at } => Some(at),
                _ => None,
            }),
    {
        match *self {
            GrammarViolation::UnknownCommand { at, .. } => Some(at),
            GrammarViolation::MissingValue { at, .. } => Some(at),
            GrammarViolation::DuplicateParameter { at, .. } => Some(at),
            GrammarViolation::UnexpectedToken { at } => Some(at),
            _ => None,
        }
    }
}

} // verus!
