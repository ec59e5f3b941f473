//! The grammar of the command line, as a spec function over the token
//! sequence, and the parser that computes it.
//!
//! ```text
//! speech transcribe FLAGS      FLAGS: each of (--in | -i) PATH and (--out | -o) PATH,
//! speech translate FLAGS              exactly once, in either order
//! language-model query TEXT    TEXT: one token that does not start with '-'
//! ```
//!
//! A flag's value is the token after it, whatever it holds. A parameter given
//! twice, in the same or the other form, is refused.

use crate::tasks::{
    CommandGroup, GrammarViolation, LLaMaTasks, LLaMaTasksModel, Options, OptionsModel, Param,
    WhisperTasks, WhisperTasksModel,
};
use vstd::prelude::*;
use vstd::string::StrSliceExecFns;

verus! {

/// The models of the argument tokens.
pub open spec fn tokens(args: Seq<String>) -> Seq<Seq<char>> {
    args.map_values(|s: String| s@)
}

pub open spec fn is_in_flag(t: Seq<char>) -> bool {
    t == "--in"@ || t == "-i"@
}

pub open spec fn is_out_flag(t: Seq<char>) -> bool {
    t == "--out"@ || t == "-o"@
}

/// A token that reads as a flag and so cannot be positional text.
pub open spec fn is_flag_like(t: Seq<char>) -> bool {
    t.len() > 0 && t[0] == '-'
}

/// The two paths of `transcribe` / `translate`, read from the flags at
/// positions `i..`, given what earlier flags already supplied.
pub open spec fn parse_paths(
    args: Seq<Seq<char>>,
    i: int,
    in_file: Option<Seq<char>>,
    out_file: Option<Seq<char>>,
) -> Result<(Seq<char>, Seq<char>), GrammarViolation>
    decreases args.len() - i,
{
    if i < 0 || i >= args.len() {
        match (in_file, out_file) {
            (Some(a), Some(b)) => Ok((a, b)),
            (None, _) => Err(GrammarViolation::MissingParameter { param: Param::InFile }),
            (_, None) => Err(GrammarViolation::MissingParameter { param: Param::OutFile }),
        }
    } else if is_in_flag(args[i]) {
        if in_file is Some {
            Err(GrammarViolation::DuplicateParameter { param: Param::InFile, at: i as usize })
        } else if i + 1 >= args.len() {
            Err(GrammarViolation::MissingValue { param: Param::InFile, at: i as usize })
        } else {
            parse_paths(args, i + 2, Some(args[i + 1]), out_file)
        }
    } else if is_out_flag(args[i]) {
        if out_file is Some {
            Err(GrammarViolation::DuplicateParameter { param: Param::OutFile, at: i as usize })
        } else if i + 1 >= args.len() {
            Err(GrammarViolation::MissingValue { param: Param::OutFile, at: i as usize })
        } else {
            parse_paths(args, i + 2, in_file, Some(args[i + 1]))
        }
    } else {
        Err(GrammarViolation::UnexpectedToken { at: i as usize })
    }
}

/// The text of `query`: exactly one token at position `i`, not flag-like.
pub open spec fn parse_query(args: Seq<Seq<char>>, i: int) -> Result<Seq<char>, GrammarViolation> {
    if i >= args.len() {
        Err(GrammarViolation::MissingParameter { param: Param::Query })
    } else if is_flag_like(args[i]) {
        Err(GrammarViolation::UnexpectedToken { at: i as usize })
    } else if i + 1 < args.len() {
        Err(GrammarViolation::UnexpectedToken { at: (i + 1) as usize })
    } else {
        Ok(args[i])
    }
}

/// An action of the speech model, its name at position `i`.
pub open spec fn parse_whisper_tasks(args: Seq<Seq<char>>, i: int) -> Result<
    WhisperTasksModel,
    GrammarViolation,
> {
    if i >= args.len() {
        Err(GrammarViolation::MissingCommand { group: CommandGroup::Whisper })
    } else if args[i] == "transcribe"@ {
        match parse_paths(args, i + 1, None, None) {
            Ok((a, b)) => Ok(WhisperTasksModel::Transcribe { in_file: a, out_file: b }),
            Err(e) => Err(e),
        }
    } else if args[i] == "translate"@ {
        match parse_paths(args, i + 1, None, None) {
            Ok((a, b)) => Ok(WhisperTasksModel::Translate { in_file: a, out_file: b }),
            Err(e) => Err(e),
        }
    } else {
        Err(GrammarViolation::UnknownCommand { group: CommandGroup::Whisper, at: i as usize })
    }
}

/// An action of the language model, its name at position `i`.
pub open spec fn parse_llama_tasks(args: Seq<Seq<char>>, i: int) -> Result<
    LLaMaTasksModel,
    GrammarViolation,
> {
    if i >= args.len() {
        Err(GrammarViolation::MissingCommand { group: CommandGroup::LLaMa })
    } else if args[i] == "query"@ {
        match parse_query(args, i + 1) {
            Ok(q) => Ok(LLaMaTasksModel::Query { query: q }),
            Err(e) => Err(e),
        }
    } else {
        Err(GrammarViolation::UnknownCommand { group: CommandGroup::LLaMa, at: i as usize })
    }
}

/// The command that a whole argument list denotes, or the first rule it breaks.
pub open spec fn parse_options(args: Seq<Seq<char>>) -> Result<OptionsModel, GrammarViolation> {
    if args.len() == 0 {
        Err(GrammarViolation::MissingCommand { group: CommandGroup::Root })
    } else if args[0] == "speech"@ {
        match parse_whisper_tasks(args, 1) {
            Ok(c) => Ok(OptionsModel::WhisperOptions { command: c }),
            Err(e) => Err(e),
        }
    } else if args[0] == "language-model"@ {
        match parse_llama_tasks(args, 1) {
            Ok(c) => Ok(OptionsModel::LLaMaOptions { command: c }),
            Err(e) => Err(e),
        }
    } else {
        Err(GrammarViolation::UnknownCommand { group: CommandGroup::Root, at: 0 })
    }
}

pub open spec fn opt_view(o: Option<String>) -> Option<Seq<char>> {
    match o {
        Some(s) => Some(s@),
        None => None,
    }
}

fn is_word(t: &String, w: &str) -> (r: bool)
    ensures
        r == (t@ == w@),
{
    let s = String::from_str(w);
    *t == s
}

fn is_flag_token(t: &String) -> (r: bool)
    ensures
        r == is_flag_like(t@),
{
    let s = t.as_str();
    s.unicode_len() > 0 && s.get_char(0) == '-'
}

/// Reads the `--in` and `--out` parameters from `args[start..]`.
fn path_params(args: &Vec<String>, start: usize) -> (r: Result<(String, String), GrammarViolation>)
    requires
        start <= args.len(),
    ensures
        match r {
            Ok((a, b)) => parse_paths(tokens(args@), start as int, None, None) == Ok::<
                _,
                GrammarViolation,
            >((a@, b@)),
            Err(e) => parse_paths(tokens(args@), start as int, None, None) == Err::<
                (Seq<char>, Seq<char>),
                _,
            >(e),
        },
{
    let ghost toks = tokens(args@);
    let mut in_file: Option<String> = None;
    let mut out_file: Option<String> = None;
    let mut i: usize = start;
    while i < args.len()
        invariant
            start <= i <= args.len(),
            toks == tokens(args@),
            parse_paths(toks, start as int, None, None) == parse_paths(
                toks,
                i as int,
                opt_view(in_file),
                opt_view(out_file),
            ),
        decreases args.len() - i,
    {
        let t = &args[i];
        if is_word(t, "--in") || is_word(t, "-i") {
            if in_file.is_some() {
                return Err(GrammarViolation::DuplicateParameter { param: Param::InFile, at: i });
            }
            if i + 1 >= args.len() {
                return Err(GrammarViolation::MissingValue { param: Param::InFile, at: i });
            }
            in_file = Some(args[i + 1].clone());
            i = i + 2;
        } else if is_word(t, "--out") || is_word(t, "-o") {
            if out_file.is_some() {
                return Err(GrammarViolation::DuplicateParameter { param: Param::OutFile, at: i });
            }
            if i + 1 >= args.len() {
                return Err(GrammarViolation::MissingValue { param: Param::OutFile, at: i });
            }
            out_file = Some(args[i + 1].clone());
            i = i + 2;
        } else {
            return Err(GrammarViolation::UnexpectedToken { at: i });
        }
    }
    match (in_file, out_file) {
        (Some(a), Some(b)) => Ok((a, b)),
        (None, _) => Err(GrammarViolation::MissingParameter { param: Param::InFile }),
        (_, None) => Err(GrammarViolation::MissingParameter { param: Param::OutFile }),
    }
}

pub open spec fn result_model<T: View>(r: Result<T, GrammarViolation>) -> Result<
    T::V,
    GrammarViolation,
> {
    match r {
        Ok(v) => Ok(v@),
        Err(e) => Err(e),
    }
}

/// Parses the flags of `transcribe`, which stand at `args[start..]`.
fn whisper_transcribe(args: &Vec<String>, start: usize) -> (r: Result<WhisperTasks, GrammarViolation>)
    requires
        start <= args.len(),
    ensures
        result_model(r) == (match parse_paths(tokens(args@), start as int, None, None) {
            Ok((a, b)) => Ok(WhisperTasksModel::Transcribe { in_file: a, out_file: b }),
            Err(e) => Err(e),
        }),
{
    match path_params(args, start) {
        Ok((in_file, out_file)) => Ok(WhisperTasks::Transcribe { in_file, out_file }),
        Err(e) => Err(e),
    }
}

/// Parses the flags of `translate`, which stand at `args[start..]`.
fn whisper_translate(args: &Vec<String>, start: usize) -> (r: Result<WhisperTasks, GrammarViolation>)
    requires
        start <= args.len(),
    ensures
        result_model(r) == (match parse_paths(tokens(args@), start as int, None, None) {
            Ok((a, b)) => Ok(WhisperTasksModel::Translate { in_file: a, out_file: b }),
            Err(e) => Err(e),
        }),
{
    match path_params(args, start) {
        Ok((in_file, out_file)) => Ok(WhisperTasks::Translate { in_file, out_file }),
        Err(e) => Err(e),
    }
}

/// Parses an action of the speech model whose name stands at `args[start]`.
fn whisper_tasks(args: &Vec<String>, start: usize) -> (r: Result<WhisperTasks, GrammarViolation>)
    requires
        start <= args.len(),
    ensures
        result_model(r) == parse_whisper_tasks(tokens(args@), start as int),
{
    if start >= args.len() {
        Err(GrammarViolation::MissingCommand { group: CommandGroup::Whisper })
    } else if is_word(&args[start], "transcribe") {
        whisper_transcribe(args, start + 1)
    } else if is_word(&args[start], "translate") {
        whisper_translate(args, start + 1)
    } else {
        Err(GrammarViolation::UnknownCommand { group: CommandGroup::Whisper, at: start })
    }
}

/// Parses the text of `query`, which stands at `args[start]`.
fn llama_query(args: &Vec<String>, start: usize) -> (r: Result<LLaMaTasks, GrammarViolation>)
    requires
        start <= args.len(),
    ensures
        result_model(r) == (match parse_query(tokens(args@), start as int) {
            Ok(q) => Ok(LLaMaTasksModel::Query { query: q }),
            Err(e) => Err(e),
        }),
{
    if start >= args.len() {
        Err(GrammarViolation::MissingParameter { param: Param::Query })
    } else if is_flag_token(&args[start]) {
        Err(GrammarViolation::UnexpectedToken { at: start })
    } else if start + 1 < args.len() {
        Err(GrammarViolation::UnexpectedToken { at: start + 1 })
    } else {
        Ok(LLaMaTasks::Query { query: args[start].clone() })
    }
}

/// Parses an action of the language model whose name stands at `args[start]`.
fn llama_tasks(args: &Vec<String>, start: usize) -> (r: Result<LLaMaTasks, GrammarViolation>)
    requires
        start <= args.len(),
    ensures
        result_model(r) == parse_llama_tasks(tokens(args@), start as int),
{
    if start >= args.len() {
        Err(GrammarViolation::MissingCommand { group: CommandGroup::LLaMa })
    } else if is_word(&args[start], "query") {
        llama_query(args, start + 1)
    } else {
        Err(GrammarViolation::UnknownCommand { group: CommandGroup::LLaMa, at: start })
    }
}

/// Parses a whole argument list (without the program name) into a command.
///
/// Succeeds exactly on the lists the grammar accepts, and otherwise reports
/// the first rule broken, scanning from the left.
pub fn options(args: &Vec<String>) -> (r: Result<Options, GrammarViolation>)
    ensures
        result_model(r) == parse_options(tokens(args@)),
        r matches Err(e) ==> points_within(e, args.len() as int),
{
    proof {
        lemma_violation_points_within(tokens(args@));
    }
    if args.len() == 0 {
        Err(GrammarViolation::MissingCommand { group: CommandGroup::Root })
    } else if is_word(&args[0], "speech") {
        match whisper_tasks(args, 1) {
            Ok(command) => Ok(Options::WhisperOptions { command }),
            Err(e) => Err(e),
        }
    } else if is_word(&args[0], "language-model") {
        match llama_tasks(args, 1) {
            Ok(command) => Ok(Options::LLaMaOptions { command }),
            Err(e) => Err(e),
        }
    } else {
        Err(GrammarViolation::UnknownCommand { group: CommandGroup::Root, at: 0 })
    }
}

/// The canonical argument list of a command: long flag forms, `--in` first.
pub open spec fn canonical_args(m: OptionsModel) -> Seq<Seq<char>> {
    match m {
        OptionsModel::WhisperOptions { command } => match command {
            WhisperTasksModel::Transcribe { in_file, out_file } => seq![
                "speech"@,
                "transcribe"@,
                "--in"@,
                in_file,
                "--out"@,
                out_file,
            ],
            WhisperTasksModel::Translate { in_file, out_file } => seq![
                "speech"@,
                "translate"@,
                "--in"@,
                in_file,
                "--out"@,
                out_file,
            ],
        },
        OptionsModel::LLaMaOptions { command } => match command {
            LLaMaTasksModel::Query { query } => seq!["language-model"@, "query"@, query],
        },
    }
}

/// The commands that some argument list denotes: every one but a query whose
/// text reads as a flag.
pub open spec fn is_expressible(m: OptionsModel) -> bool {
    m matches OptionsModel::LLaMaOptions { command: LLaMaTasksModel::Query { query } }
        ==> !is_flag_like(query)
}

impl Options {
    /// The canonical argument list that denotes this command.
    pub fn to_args(&self) -> (r: Vec<String>)
        ensures
            tokens(r@) == canonical_args(self@),
    {
        let mut r: Vec<String> = Vec::new();
        match self {
            Options::WhisperOptions { command } => {
                r.push(String::from_str("speech"));
                match command {
                    WhisperTasks::Transcribe { in_file, out_file } => {
                        r.push(String::from_str("transcribe"));
                        r.push(String::from_str("--in"));
                        r.push(in_file.clone());
                        r.push(String::from_str("--out"));
                        r.push(out_file.clone());
                    },
                    WhisperTasks::Translate { in_file, out_file } => {
                        r.push(String::from_str("translate"));
                        r.push(String::from_str("--in"));
                        r.push(in_file.clone());
                        r.push(String::from_str("--out"));
                        r.push(out_file.clone());
                    },
                }
            },
            Options::LLaMaOptions { command } => {
                r.push(String::from_str("language-model"));
                match command {
                    LLaMaTasks::Query { query } => {
                        r.push(String::from_str("query"));
                        r.push(query.clone());
                    },
                }
            },
        }
        assert(tokens(r@) =~= canonical_args(self@));
        r
    }
}

proof fn lemma_flag_words_distinct()
    ensures
        !is_in_flag("--out"@),
        !is_out_flag("--in"@),
        is_in_flag("--in"@),
        is_out_flag("--out"@),
        "speech"@ != "language-model"@,
        "transcribe"@ != "translate"@,
{
    reveal_strlit("--in");
    reveal_strlit("-i");
    reveal_strlit("--out");
    reveal_strlit("-o");
    reveal_strlit("speech");
    reveal_strlit("language-model");
    reveal_strlit("transcribe");
    reveal_strlit("translate");
    assert("--out"@ != "--in"@) by { assert("--out"@.len() != "--in"@.len()); }
    assert("--out"@ != "-i"@) by { assert("--out"@.len() != "-i"@.len()); }
    assert("--in"@ != "-o"@) by { assert("--in"@.len() != "-o"@.len()); }
    assert("speech"@ != "language-model"@) by {
        assert("speech"@.len() != "language-model"@.len());
    }
    assert("transcribe"@ != "translate"@) by {
        assert("transcribe"@.len() != "translate"@.len());
    }
}

/// Every command without a flag-like query text is what its canonical
/// argument list parses to.
pub proof fn lemma_canonical_parses(m: OptionsModel)
    requires
        is_expressible(m),
    ensures
        parse_options(canonical_args(m)) == Ok::<_, GrammarViolation>(m),
{
    lemma_flag_words_distinct();
    let args = canonical_args(m);
    match m {
        OptionsModel::WhisperOptions { command } => {
            let (a, b) = match command {
                WhisperTasksModel::Transcribe { in_file, out_file } => (in_file, out_file),
                WhisperTasksModel::Translate { in_file, out_file } => (in_file, out_file),
            };
            assert(parse_paths(args, 6, Some(a), Some(b)) == Ok::<_, GrammarViolation>((a, b)));
            assert(parse_paths(args, 4, Some(a), None) == Ok::<_, GrammarViolation>((a, b)));
            assert(parse_paths(args, 2, None, None) == Ok::<_, GrammarViolation>((a, b)));
        },
        OptionsModel::LLaMaOptions { command } => {},
    }
}

/// Whatever a parse yields has a canonical argument list.
pub proof fn lemma_parsed_is_expressible(args: Seq<Seq<char>>)
    requires
        parse_options(args) is Ok,
    ensures
        is_expressible(parse_options(args)->Ok_0),
{
}

/// Round trip: parsing an accepted argument list, writing the command back in
/// canonical form and parsing that gives the same command.
pub proof fn lemma_round_trip(args: Seq<Seq<char>>)
    requires
        parse_options(args) is Ok,
    ensures
        parse_options(canonical_args(parse_options(args)->Ok_0)) == parse_options(args),
{
    lemma_parsed_is_expressible(args);
    lemma_canonical_parses(parse_options(args)->Ok_0);
}

/// No token at `i..` is an `--in` flag.
pub open spec fn lacks_in_flag(args: Seq<Seq<char>>, i: int) -> bool {
    forall|j: int| i <= j < args.len() ==> !is_in_flag(#[trigger] args[j])
}

/// No token at `i..` is an `--out` flag.
pub open spec fn lacks_out_flag(args: Seq<Seq<char>>, i: int) -> bool {
    forall|j: int| i <= j < args.len() ==> !is_out_flag(#[trigger] args[j])
}

proof fn lemma_paths_need_in(args: Seq<Seq<char>>, i: int, out_file: Option<Seq<char>>)
    requires
        0 <= i,
        lacks_in_flag(args, i),
    ensures
        parse_paths(args, i, None, out_file) is Err,
    decreases args.len() - i,
{
    if i < args.len() {
        assert(!is_in_flag(args[i]));
        if is_out_flag(args[i]) && out_file is None && i + 1 < args.len() {
            lemma_paths_need_in(args, i + 2, Some(args[i + 1]));
        }
    }
}

proof fn lemma_paths_need_out(args: Seq<Seq<char>>, i: int, in_file: Option<Seq<char>>)
    requires
        0 <= i,
        lacks_out_flag(args, i),
    ensures
        parse_paths(args, i, in_file, None) is Err,
    decreases args.len() - i,
{
    if i < args.len() {
        assert(!is_out_flag(args[i]));
        if is_in_flag(args[i]) && in_file is None && i + 1 < args.len() {
            lemma_paths_need_out(args, i + 2, Some(args[i + 1]));
        }
    }
}

/// The argument lists that select a command, or none, but leave out a
/// parameter it requires: no family; a family but no action; an action of
/// the speech model with no `--in` or no `--out` flag; `query` with no text.
pub open spec fn misses_required_parameter(args: Seq<Seq<char>>) -> bool {
    ||| args.len() == 0
    ||| args.len() == 1 && (args[0] == "speech"@ || args[0] == "language-model"@)
    ||| args.len() >= 2 && args[0] == "speech"@ && (args[1] == "transcribe"@ || args[1]
        == "translate"@) && (lacks_in_flag(args, 2) || lacks_out_flag(args, 2))
    ||| args.len() == 2 && args[0] == "language-model"@ && args[1] == "query"@
}

/// Rejection: an argument list that leaves out a required parameter is
/// refused.
pub proof fn lemma_missing_parameter_rejected(args: Seq<Seq<char>>)
    requires
        misses_required_parameter(args),
    ensures
        parse_options(args) is Err,
{
    lemma_flag_words_distinct();
    if args.len() >= 2 && args[0] == "speech"@ {
        if lacks_in_flag(args, 2) {
            lemma_paths_need_in(args, 2, None);
        } else if lacks_out_flag(args, 2) {
            lemma_paths_need_out(args, 2, None);
        }
    }
}

/// The token a violation points at, if any, lies among the `n` tokens.
pub open spec fn points_within(e: GrammarViolation, n: int) -> bool {
    match e {
        GrammarViolation::UnknownCommand { at, .. } => at < n,
        GrammarViolation::MissingValue { at, .. } => at < n,
        GrammarViolation::DuplicateParameter { at, .. } => at < n,
        GrammarViolation::UnexpectedToken { at } => at < n,
        _ => true,
    }
}

proof fn lemma_paths_point_within(
    args: Seq<Seq<char>>,
    i: int,
    in_file: Option<Seq<char>>,
    out_file: Option<Seq<char>>,
)
    requires
        0 <= i,
        args.len() <= usize::MAX,
    ensures
        parse_paths(args, i, in_file, out_file) matches Err(e) ==> points_within(e, args.len() as int),
    decreases args.len() - i,
{
    if i < args.len() && i + 1 < args.len() {
        if is_in_flag(args[i]) {
            lemma_paths_point_within(args, i + 2, Some(args[i + 1]), out_file);
        } else if is_out_flag(args[i]) {
            lemma_paths_point_within(args, i + 2, in_file, Some(args[i + 1]));
        }
    }
}

/// Every violation that a parse reports points, if at all, at one of the tokens.
pub proof fn lemma_violation_points_within(args: Seq<Seq<char>>)
    requires
        args.len() <= usize::MAX,
    ensures
        parse_options(args) matches Err(e) ==> points_within(e, args.len() as int),
{
    lemma_paths_point_within(args, 2, None, None);
}

} // verus!
