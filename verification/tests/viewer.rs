use dog::args::{config_error_message, parse_args, ConfigError};
use dog::filter::LineFilter;
use dog::highlight::HighlightAssets;
use dog::messages::{
    bark_line, fetch_header, highlight_header, not_found_message, usage_message, whine_error,
};
use dog::pipeline::{report_line, run_grep_job, run_highlight_job, FileData, JobError};

fn strings(v: &[&str]) -> Vec<String> {
    v.iter().map(|s| s.to_string()).collect()
}

fn content(lines: &[&str]) -> FileData {
    FileData::Content { lines: strings(lines), read_error: None }
}

#[test]
fn bark_line_marks_the_line() {
    assert_eq!(bark_line("hi"), "hi... woof!\n");
    assert_eq!(bark_line(""), "... woof!\n");
}

#[test]
fn whine_error_marks_the_message() {
    assert_eq!(whine_error("oops"), "oops... whine! (Error)\n");
}

#[test]
fn headers_name_the_file() {
    assert_eq!(fetch_header("a.txt"), "Fetching a.txt... arf!\n");
    assert_eq!(
        highlight_header("a.txt"),
        "Fetching and highlighting a.txt... arf!\n"
    );
}

#[test]
fn not_found_message_names_the_file() {
    assert_eq!(
        not_found_message("a.txt"),
        "Can't find a.txt... grrrr! (File not found)... whine! (Error)\n"
    );
}

#[test]
fn plain_run_emits_every_line_in_order() {
    let report = run_grep_job(&None, "a.txt", &content(&["one", "two", "three"]));
    assert_eq!(
        report.output,
        strings(&[
            "Fetching a.txt... arf!\n",
            "one... woof!\n",
            "two... woof!\n",
            "three... woof!\n",
        ])
    );
    assert!(report.error.is_none());
}

#[test]
fn grep_keeps_exactly_the_matching_lines() {
    let filter = LineFilter::compile("foo");
    assert!(filter.is_some());
    let report = run_grep_job(&filter, "a.txt", &content(&["foo", "bar", "foobar"]));
    assert_eq!(
        report.output,
        strings(&[
            "Fetching a.txt... arf!\n",
            "foo... woof!\n",
            "foobar... woof!\n",
        ])
    );
    assert!(report.error.is_none());
}

#[test]
fn grep_scenario_through_the_flag_parser() {
    let inv = parse_args(&strings(&["a.txt", "--grep", "foo"])).unwrap();
    assert_eq!(inv.filenames, strings(&["a.txt"]));
    assert!(!inv.highlight);
    let report = run_grep_job(&inv.filter, "a.txt", &content(&["foo", "bar", "foobar"]));
    assert_eq!(
        report.output,
        strings(&[
            "Fetching a.txt... arf!\n",
            "foo... woof!\n",
            "foobar... woof!\n",
        ])
    );
}

#[test]
fn pattern_matching_nothing_yields_no_lines_and_no_error() {
    let filter = LineFilter::compile("zzz");
    let report = run_grep_job(&filter, "a.txt", &content(&["foo", "bar"]));
    assert_eq!(report.output, strings(&["Fetching a.txt... arf!\n"]));
    assert!(report.error.is_none());
}

#[test]
fn matching_is_case_sensitive_unless_the_pattern_says_otherwise() {
    let plain = LineFilter::compile("foo");
    let report = run_grep_job(&plain, "a.txt", &content(&["FOO"]));
    assert_eq!(report.output, strings(&["Fetching a.txt... arf!\n"]));
    let folded = LineFilter::compile("(?i)foo");
    let report = run_grep_job(&folded, "a.txt", &content(&["FOO"]));
    assert_eq!(
        report.output,
        strings(&["Fetching a.txt... arf!\n", "FOO... woof!\n"])
    );
}

#[test]
fn rerunning_the_plain_pipeline_is_byte_identical() {
    let filter = LineFilter::compile("o");
    let a = run_grep_job(&filter, "a.txt", &content(&["foo", "bar"]));
    let b = run_grep_job(&filter, "a.txt", &content(&["foo", "bar"]));
    assert_eq!(a.output, b.output);
    assert_eq!(a.error, b.error);
}

#[test]
fn missing_file_reports_once_and_emits_nothing() {
    let report = run_grep_job(&None, "gone.txt", &FileData::Missing);
    assert!(report.output.is_empty());
    assert_eq!(report.error, Some(JobError::NotFound));
    let message = report_line("gone.txt", false, &JobError::NotFound);
    assert!(message.contains("gone.txt"));
    assert_eq!(
        message,
        "Can't find gone.txt... grrrr! (File not found)... whine! (Error)\n"
    );
}

#[test]
fn missing_file_leaves_other_files_untouched() {
    let missing = run_grep_job(&None, "gone.txt", &FileData::Missing);
    let present = run_grep_job(&None, "here.txt", &content(&["alpha"]));
    assert!(missing.output.is_empty());
    assert_eq!(
        present.output,
        strings(&["Fetching here.txt... arf!\n", "alpha... woof!\n"])
    );
    assert!(present.error.is_none());
}

#[test]
fn unreadable_file_reports_the_cause() {
    let report = run_grep_job(
        &None,
        "locked.txt",
        &FileData::Unreadable("permission denied".to_string()),
    );
    assert!(report.output.is_empty());
    assert_eq!(
        report.error,
        Some(JobError::Unreadable("permission denied".to_string()))
    );
    assert_eq!(
        report_line("locked.txt", false, &JobError::Unreadable("permission denied".to_string())),
        "Couldn't fetch locked.txt: permission denied... whine! (Error)\n"
    );
}

#[test]
fn read_failure_keeps_the_lines_already_emitted() {
    let data = FileData::Content {
        lines: strings(&["first", "second"]),
        read_error: Some("stream broke".to_string()),
    };
    let report = run_grep_job(&None, "a.txt", &data);
    assert_eq!(
        report.output,
        strings(&[
            "Fetching a.txt... arf!\n",
            "first... woof!\n",
            "second... woof!\n",
        ])
    );
    assert_eq!(report.error, Some(JobError::ReadFailure("stream broke".to_string())));
    assert_eq!(
        report_line("a.txt", false, &JobError::ReadFailure("stream broke".to_string())),
        "Couldn't fetch a.txt: stream broke... whine! (Error)\n"
    );
}

#[test]
fn no_arguments_is_a_usage_error() {
    let r = parse_args(&strings(&[]));
    assert_eq!(r.err(), Some(ConfigError::Usage));
    assert_eq!(
        config_error_message(&ConfigError::Usage),
        usage_message()
    );
    assert!(usage_message().starts_with("Sniff sniff... no files to fetch!"));
}

#[test]
fn flags_without_filenames_are_a_usage_error() {
    let r = parse_args(&strings(&["--highlight"]));
    assert_eq!(r.err(), Some(ConfigError::Usage));
}

#[test]
fn trailing_grep_flag_is_a_missing_pattern_error() {
    let r = parse_args(&strings(&["a.txt", "--grep"]));
    assert_eq!(r.err(), Some(ConfigError::MissingPatternArg));
}

#[test]
fn unparsable_pattern_is_a_configuration_error() {
    let r = parse_args(&strings(&["a.txt", "--grep", "a(", "b.txt"]));
    assert_eq!(r.err(), Some(ConfigError::InvalidPattern));
    assert!(LineFilter::compile("a(").is_none());
}

#[test]
fn highlight_failure_report_names_the_file() {
    assert_eq!(
        report_line("m.rs", true, &JobError::HighlightFailure),
        "Couldn't fetch and highlight m.rs: A line could not be highlighted... whine! (Error)\n"
    );
}

#[test]
fn last_grep_pattern_wins() {
    let inv = parse_args(&strings(&["a.txt", "--grep", "foo", "--grep", "bar"])).unwrap();
    let report = run_grep_job(&inv.filter, "a.txt", &content(&["foo", "bar"]));
    assert_eq!(
        report.output,
        strings(&["Fetching a.txt... arf!\n", "bar... woof!\n"])
    );
}

#[test]
fn parser_gathers_files_flags_and_pattern() {
    let inv = parse_args(&strings(&["a.txt", "--highlight", "b.txt", "--grep", "x"])).unwrap();
    assert_eq!(inv.filenames, strings(&["a.txt", "b.txt"]));
    assert!(inv.highlight);
    assert!(inv.filter.is_some());
}

#[test]
fn assets_load_and_resolve_known_grammars() {
    let assets = HighlightAssets::load().expect("default theme present");
    assert!(assets.resolve_grammar("m.rs", "").is_some());
    assert!(assets.resolve_grammar("dir/part.py", "").is_some());
    assert!(assets.resolve_grammar("script", "#!/bin/bash").is_some());
    assert!(assets.resolve_grammar("mystery", "no shebang here").is_none());
}

#[test]
fn unsupported_file_emits_nothing_in_decorated_mode() {
    let assets = HighlightAssets::load().unwrap();
    let report = run_highlight_job(&None, &assets, "mystery", &content(&["just words"]));
    assert!(report.output.is_empty());
    assert_eq!(report.error, Some(JobError::UnsupportedFile));
    assert_eq!(
        report_line("mystery", true, &JobError::UnsupportedFile),
        "Couldn't fetch and highlight mystery: File can't be highlighted (unsupported or not found)... whine! (Error)\n"
    );
}

#[test]
fn decorated_lines_carry_escape_codes() {
    let assets = HighlightAssets::load().unwrap();
    let report = run_highlight_job(&None, &assets, "m.rs", &content(&["fn main() {}"]));
    assert!(report.error.is_none());
    assert_eq!(report.output.len(), 2);
    assert_eq!(report.output[0], "Fetching and highlighting m.rs... arf!\n");
    assert!(report.output[1].contains('\u{1b}'));
    assert_ne!(report.output[1], "fn main() {}");
}

#[test]
fn rerunning_the_decorated_pipeline_is_byte_identical() {
    let assets = HighlightAssets::load().unwrap();
    let lines = ["/*", "let x = 1;", "*/"];
    let a = run_highlight_job(&None, &assets, "m.rs", &content(&lines));
    let b = run_highlight_job(&None, &assets, "m.rs", &content(&lines));
    assert_eq!(a.output, b.output);
    assert_eq!(a.error, b.error);
}

#[test]
fn filtering_never_alters_how_a_kept_line_is_coloured() {
    let assets = HighlightAssets::load().unwrap();
    let lines = ["/* opening", "let kept = 1;", "end of comment */", "let also_kept = 2;"];
    let full = run_highlight_job(&None, &assets, "m.rs", &content(&lines));
    let filter = LineFilter::compile("let");
    let kept = run_highlight_job(&filter, &assets, "m.rs", &content(&lines));
    assert!(full.error.is_none());
    assert!(kept.error.is_none());
    // Discarding the non-matching raw lines from the unfiltered run must give
    // the filtered run: header, then the decorations of lines 1 and 3.
    assert_eq!(kept.output.len(), 3);
    assert_eq!(kept.output[0], full.output[0]);
    assert_eq!(kept.output[1], full.output[2]);
    assert_eq!(kept.output[2], full.output[4]);
}
