//! The exact texts the viewer emits: the per-line marker, the per-file
//! headers, and the failure reports.  Every builder's contract gives the
//! produced text character for character.

use vstd::prelude::*;
use vstd::string::StringExecFns;

verus! {

/// The text of a plainly emitted line: the line with the completion marker.
pub open spec fn bark_spec(line: Seq<char>) -> Seq<char> {
    line + "... woof!\n"@
}

/// The text of a failure report: the message with the failure marker.
pub open spec fn whine_spec(message: Seq<char>) -> Seq<char> {
    message + "... whine! (Error)\n"@
}

/// The header announcing a file in plain mode.
pub open spec fn fetch_header_spec(filename: Seq<char>) -> Seq<char> {
    "Fetching "@ + filename + "... arf!\n"@
}

/// The header announcing a file in decorated mode.
pub open spec fn highlight_header_spec(filename: Seq<char>) -> Seq<char> {
    "Fetching and highlighting "@ + filename + "... arf!\n"@
}

/// The report for a file the existence probe did not find.
pub open spec fn not_found_spec(filename: Seq<char>) -> Seq<char> {
    whine_spec("Can't find "@ + filename + "... grrrr! (File not found)"@)
}

/// The report for a file that could not be fetched in plain mode.
pub open spec fn fetch_failed_spec(filename: Seq<char>, cause: Seq<char>) -> Seq<char> {
    whine_spec("Couldn't fetch "@ + filename + ": "@ + cause)
}

/// The report for a file that could not be fetched or coloured in decorated mode.
pub open spec fn highlight_failed_spec(filename: Seq<char>, cause: Seq<char>) -> Seq<char> {
    whine_spec("Couldn't fetch and highlight "@ + filename + ": "@ + cause)
}

/// The usage report for an invocation that names no file.
pub open spec fn usage_spec() -> Seq<char> {
    whine_spec("Sniff sniff... no files to fetch! Usage: dog <file1> [--grep <pattern>] [--highlight]"@)
}

/// The report for a `--grep` flag with no pattern after it.
pub open spec fn missing_pattern_spec() -> Seq<char> {
    whine_spec("Missing pattern after --grep"@)
}

/// The report for a pattern the pattern compiler refuses.
pub open spec fn invalid_pattern_spec() -> Seq<char> {
    whine_spec("Invalid regex pattern"@)
}

/// Marks one emitted line as processed.
pub fn bark_line(line: &str) -> (r: String)
    ensures
        r@ == bark_spec(line@),
{
    let mut s: String = line.to_owned();
    s.append("... woof!\n");
    s
}

/// Wraps one failure message in the failure marker.
pub fn whine_error(message: &str) -> (r: String)
    ensures
        r@ == whine_spec(message@),
{
    let mut s: String = message.to_owned();
    s.append("... whine! (Error)\n");
    s
}

/// The header emitted before a file's lines in plain mode.
pub fn fetch_header(filename: &str) -> (r: String)
    ensures
        r@ == fetch_header_spec(filename@),
{
    let mut s: String = "Fetching ".to_owned();
    s.append(filename);
    s.append("... arf!\n");
    s
}

/// The header emitted before a file's lines in decorated mode.
pub fn highlight_header(filename: &str) -> (r: String)
    ensures
        r@ == highlight_header_spec(filename@),
{
    let mut s: String = "Fetching and highlighting ".to_owned();
    s.append(filename);
    s.append("... arf!\n");
    s
}

/// The report for a missing file.
pub fn not_found_message(filename: &str) -> (r: String)
    ensures
        r@ == not_found_spec(filename@),
{
    let mut s: String = "Can't find ".to_owned();
    s.append(filename);
    s.append("... grrrr! (File not found)");
    whine_error(s.as_str())
}

/// The report for a file that could not be fetched in plain mode.
pub fn fetch_failed_message(filename: &str, cause: &str) -> (r: String)
    ensures
        r@ == fetch_failed_spec(filename@, cause@),
{
    let mut s: String = "Couldn't fetch ".to_owned();
    s.append(filename);
    s.append(": ");
    s.append(cause);
    whine_error(s.as_str())
}

/// The report for a file that could not be fetched or coloured in decorated mode.
pub fn highlight_failed_message(filename: &str, cause: &str) -> (r: String)
    ensures
        r@ == highlight_failed_spec(filename@, cause@),
{
    let mut s: String = "Couldn't fetch and highlight ".to_owned();
    s.append(filename);
    s.append(": ");
    s.append(cause);
    whine_error(s.as_str())
}

/// The usage report.
pub fn usage_message() -> (r: String)
    ensures
        r@ == usage_spec(),
{
    whine_error("Sniff sniff... no files to fetch! Usage: dog <file1> [--grep <pattern>] [--highlight]")
}

/// The report for a `--grep` flag with no pattern after it.
pub fn missing_pattern_message() -> (r: String)
    ensures
        r@ == missing_pattern_spec(),
{
    whine_error("Missing pattern after --grep")
}

/// The report for a pattern the pattern compiler refuses.
pub fn invalid_pattern_message() -> (r: String)
    ensures
        r@ == invalid_pattern_spec(),
{
    whine_error("Invalid regex pattern")
}

} // verus!
