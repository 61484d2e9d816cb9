//! The optional line filter: a compiled pattern and the keep/drop decision it
//! makes for each line.  Compiling and matching are the pattern crate's work
//! and stand behind trusted items; everything else is verified against them.

use vstd::prelude::*;

verus! {

#[verifier::external_type_specification]
#[verifier::external_body]
pub struct ExRegex(regex::Regex);

/// Whether the pattern crate accepts `pat` as a pattern.  `regex::Regex::new`
/// decides this from the pattern text alone.
pub uninterp spec fn regex_valid(pat: Seq<char>) -> bool;

/// Whether the pattern `pat` matches anywhere in `line` (substring search,
/// not whole-line equality).  `regex::Regex::is_match` decides this from the
/// pattern and the haystack alone.
pub uninterp spec fn regex_match(pat: Seq<char>, line: Seq<char>) -> bool;

/// The pattern text a compiled value was built from; `regex::Regex` keeps it
/// (its `as_str` hands it back).
pub uninterp spec fn regex_source(re: regex::Regex) -> Seq<char>;

/// Relies on `regex::Regex::new`: it returns `Ok` exactly on the patterns the
/// crate accepts, and the compiled value remembers the pattern it was built
/// from.
#[verifier::external_body]
fn compile_pattern(pat: &str) -> (r: Option<regex::Regex>)
    ensures
        r is Some <==> regex_valid(pat@),
        r matches Some(re) ==> regex_source(re) == pat@,
{
    regex::Regex::new(pat).ok()
}

/// Relies on `regex::Regex::is_match`: true if and only if the pattern
/// matches anywhere in the haystack.
#[verifier::external_body]
fn pattern_matches(re: &regex::Regex, line: &str) -> (r: bool)
    ensures
        r == regex_match(regex_source(*re), line@),
{
    re.is_match(line)
}

/// A compiled line filter: keeps the lines its pattern matches.
pub struct LineFilter {
    re: regex::Regex,
}

impl LineFilter {
    /// The pattern this filter was compiled from.
    pub closed spec fn pattern(self) -> Seq<char> {
        regex_source(self.re)
    }

    /// Compiles a filter; `None` exactly when the pattern is refused.
    pub fn compile(pat: &str) -> (r: Option<LineFilter>)
        ensures
            r is Some <==> regex_valid(pat@),
            r matches Some(f) ==> f.pattern() == pat@,
    {
        match compile_pattern(pat) {
            Some(re) => Some(LineFilter { re }),
            None => None,
        }
    }

    /// The keep/drop decision for one line.
    pub fn keep(&self, line: &str) -> (r: bool)
        ensures
            r == regex_match(self.pattern(), line@),
    {
        pattern_matches(&self.re, line)
    }
}

/// The pattern an optional filter stands for.
pub open spec fn filter_pattern(f: Option<LineFilter>) -> Option<Seq<char>> {
    match f {
        Option::None => None,
        Option::Some(lf) => Some(lf.pattern()),
    }
}

/// The keep/drop decision of an optional filter: no filter keeps every line.
pub open spec fn keeps(pat: Option<Seq<char>>, line: Seq<char>) -> bool {
    match pat {
        Option::None => true,
        Option::Some(p) => regex_match(p, line),
    }
}

/// Applies the optional filter to one line.
pub fn keep_line(f: &Option<LineFilter>, line: &str) -> (r: bool)
    ensures
        r == keeps(filter_pattern(*f), line@),
{
    match f {
        Some(lf) => lf.keep(line),
        None => true,
    }
}

} // verus!
