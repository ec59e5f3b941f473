use pengolodh::{
    describe, llama, options, query_line, transfer_line, usage, whisper, CommandGroup,
    GrammarViolation, LLaMaTasks, Options, Param, WhisperTasks,
};

fn args(words: &[&str]) -> Vec<String> {
    words.iter().map(|w| w.to_string()).collect()
}

fn transcribe(a: &str, b: &str) -> Options {
    Options::WhisperOptions {
        command: WhisperTasks::Transcribe { in_file: a.to_string(), out_file: b.to_string() },
    }
}

fn translate(a: &str, b: &str) -> Options {
    Options::WhisperOptions {
        command: WhisperTasks::Translate { in_file: a.to_string(), out_file: b.to_string() },
    }
}

fn query(q: &str) -> Options {
    Options::LLaMaOptions { command: LLaMaTasks::Query { query: q.to_string() } }
}

#[test]
fn scenario_transcribe_long_flags() {
    let r = options(&args(&["speech", "transcribe", "--in", "a.wav", "--out", "a.txt"]));
    assert_eq!(r, Ok(transcribe("a.wav", "a.txt")));
    assert_eq!(describe(&r.unwrap()), "Transcribing \"a.wav\" => \"a.txt\"");
}

#[test]
fn scenario_query() {
    let r = options(&args(&["language-model", "query", "what is the weather"]));
    assert_eq!(r, Ok(query("what is the weather")));
    assert_eq!(describe(&r.unwrap()), "Querying: \"what is the weather\"");
}

#[test]
fn scenario_translate_missing_out() {
    let r = options(&args(&["speech", "translate", "--in", "b.wav"]));
    assert_eq!(r, Err(GrammarViolation::MissingParameter { param: Param::OutFile }));
}

#[test]
fn scenario_empty_arguments() {
    let r = options(&args(&[]));
    assert_eq!(r, Err(GrammarViolation::MissingCommand { group: CommandGroup::Root }));
}

#[test]
fn translate_yields_translate_variant() {
    let r = options(&args(&["speech", "translate", "-i", "b.wav", "-o", "b.txt"]));
    assert_eq!(r, Ok(translate("b.wav", "b.txt")));
    assert_eq!(describe(&r.unwrap()), "Translating \"b.wav\" => \"b.txt\"");
}

#[test]
fn short_and_long_flags_mix_in_any_order() {
    let r = options(&args(&["speech", "transcribe", "-o", "x.txt", "--in", "x.wav"]));
    assert_eq!(r, Ok(transcribe("x.wav", "x.txt")));
}

#[test]
fn duplicate_parameter_in_other_form_is_refused() {
    let r = options(&args(&["speech", "transcribe", "--in", "a", "-i", "b", "--out", "c"]));
    assert_eq!(r, Err(GrammarViolation::DuplicateParameter { param: Param::InFile, at: 4 }));
    let r = options(&args(&["speech", "transcribe", "-o", "a", "--out", "b"]));
    assert_eq!(r, Err(GrammarViolation::DuplicateParameter { param: Param::OutFile, at: 4 }));
}

#[test]
fn flag_without_value_is_refused() {
    let r = options(&args(&["speech", "transcribe", "--out", "a.txt", "--in"]));
    assert_eq!(r, Err(GrammarViolation::MissingValue { param: Param::InFile, at: 4 }));
    let r = options(&args(&["speech", "translate", "-o"]));
    assert_eq!(r, Err(GrammarViolation::MissingValue { param: Param::OutFile, at: 2 }));
}

#[test]
fn flag_value_may_look_like_a_flag() {
    let r = options(&args(&["speech", "transcribe", "--in", "--out", "--out", "-i"]));
    assert_eq!(r, Ok(transcribe("--out", "-i")));
}

#[test]
fn missing_in_is_reported() {
    let r = options(&args(&["speech", "transcribe", "--out", "a.txt"]));
    assert_eq!(r, Err(GrammarViolation::MissingParameter { param: Param::InFile }));
    let r = options(&args(&["speech", "transcribe"]));
    assert_eq!(r, Err(GrammarViolation::MissingParameter { param: Param::InFile }));
}

#[test]
fn unknown_commands_are_refused() {
    let r = options(&args(&["video", "transcribe"]));
    assert_eq!(r, Err(GrammarViolation::UnknownCommand { group: CommandGroup::Root, at: 0 }));
    let r = options(&args(&["speech", "summarise"]));
    assert_eq!(r, Err(GrammarViolation::UnknownCommand { group: CommandGroup::Whisper, at: 1 }));
    let r = options(&args(&["language-model", "transcribe", "x"]));
    assert_eq!(r, Err(GrammarViolation::UnknownCommand { group: CommandGroup::LLaMa, at: 1 }));
    let r = options(&args(&["whisper", "transcribe"]));
    assert_eq!(r, Err(GrammarViolation::UnknownCommand { group: CommandGroup::Root, at: 0 }));
}

#[test]
fn missing_action_is_refused() {
    let r = options(&args(&["speech"]));
    assert_eq!(r, Err(GrammarViolation::MissingCommand { group: CommandGroup::Whisper }));
    let r = options(&args(&["language-model"]));
    assert_eq!(r, Err(GrammarViolation::MissingCommand { group: CommandGroup::LLaMa }));
}

#[test]
fn unexpected_tokens_are_refused() {
    let r = options(&args(&["speech", "transcribe", "--in", "a", "--out", "b", "extra"]));
    assert_eq!(r, Err(GrammarViolation::UnexpectedToken { at: 6 }));
    let r = options(&args(&["speech", "transcribe", "--verbose"]));
    assert_eq!(r, Err(GrammarViolation::UnexpectedToken { at: 2 }));
}

#[test]
fn query_takes_exactly_one_plain_token() {
    let r = options(&args(&["language-model", "query"]));
    assert_eq!(r, Err(GrammarViolation::MissingParameter { param: Param::Query }));
    let r = options(&args(&["language-model", "query", "a", "b"]));
    assert_eq!(r, Err(GrammarViolation::UnexpectedToken { at: 3 }));
    let r = options(&args(&["language-model", "query", "-x"]));
    assert_eq!(r, Err(GrammarViolation::UnexpectedToken { at: 2 }));
    let r = options(&args(&["language-model", "query", ""]));
    assert_eq!(r, Ok(query("")));
}

#[test]
fn canonical_form_parses_back() {
    for words in [
        vec!["speech", "transcribe", "-o", "o.txt", "-i", "i.wav"],
        vec!["speech", "translate", "--out", "o", "--in", "i"],
        vec!["language-model", "query", "hello there"],
    ] {
        let first = options(&args(&words)).unwrap();
        let again = options(&first.to_args()).unwrap();
        assert_eq!(first, again);
    }
    assert_eq!(
        transcribe("i.wav", "o.txt").to_args(),
        args(&["speech", "transcribe", "--in", "i.wav", "--out", "o.txt"])
    );
}

#[test]
fn every_variant_has_one_line() {
    for opts in [transcribe("a", "b"), translate("a", "b"), query("q")] {
        let line = describe(&opts);
        assert!(!line.contains('\n'));
        assert_eq!(line, describe(&opts));
    }
}

#[test]
fn dispatch_quotes_with_escapes() {
    let cmd = WhisperTasks::Transcribe { in_file: "a\"b.wav".to_string(), out_file: "c\\d".to_string() };
    assert_eq!(whisper(&cmd), "Transcribing \"a\\\"b.wav\" => \"c\\\\d\"");
    let cmd = LLaMaTasks::Query { query: "line\nbreak".to_string() };
    assert_eq!(llama(&cmd), "Querying: \"line\\nbreak\"");
}

#[test]
fn lines_from_quoted_parts() {
    assert_eq!(transfer_line("Translating", "<a>", "<b>"), "Translating <a> => <b>");
    assert_eq!(query_line("'x'"), "Querying: 'x'");
}

#[test]
fn violation_messages() {
    assert_eq!(
        GrammarViolation::MissingParameter { param: Param::OutFile }.message(),
        "missing required parameter --out"
    );
    assert_eq!(
        GrammarViolation::UnknownCommand { group: CommandGroup::Whisper, at: 1 }.message(),
        "unknown command; expected one of: transcribe, translate"
    );
    assert_eq!(
        GrammarViolation::MissingCommand { group: CommandGroup::Root }.message(),
        "a command is required; expected one of: speech, language-model"
    );
    assert_eq!(
        GrammarViolation::DuplicateParameter { param: Param::InFile, at: 4 }.message(),
        "--in is given more than once"
    );
    assert_eq!(
        GrammarViolation::MissingValue { param: Param::InFile, at: 4 }.message(),
        "--in requires a value"
    );
    assert_eq!(GrammarViolation::UnexpectedToken { at: 2 }.message(), "unexpected argument");
    assert_eq!(GrammarViolation::UnexpectedToken { at: 2 }.position(), Some(2));
    assert_eq!(GrammarViolation::MissingParameter { param: Param::Query }.position(), None);
    assert!(usage().contains("language-model query QUERY"));
}
