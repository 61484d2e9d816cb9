//! The line decorator: syntax-aware colouring with state carried across the
//! lines of one file.  The grammar table, the theme, grammar lookup and the
//! colouring of one line are the highlighting crate's work and stand behind
//! trusted items; grammar resolution for a file, and the threading of the
//! highlighter's state, are verified against them.
//!
//! The named results below (`grammar_for_token`, `grammar_for_first_line`,
//! `highlight_ok`, `escaped_line`) speak of lookups and colouring under the
//! crate's compiled-in default grammar table and theme; the library only ever
//! builds its state from those defaults, so the results are functions of the
//! stated arguments alone.

use vstd::prelude::*;
use vstd::string::StrSliceExecFns;

verus! {

#[verifier::external_type_specification]
#[verifier::external_body]
pub struct ExSyntaxSet(syntect::parsing::SyntaxSet);

#[verifier::external_type_specification]
#[verifier::external_body]
pub struct ExSyntaxReference(syntect::parsing::SyntaxReference);

#[verifier::external_type_specification]
#[verifier::external_body]
pub struct ExTheme(syntect::highlighting::Theme);

#[verifier::external_type_specification]
#[verifier::external_body]
pub struct ExHighlightLines<'a>(syntect::easy::HighlightLines<'a>);

/// The name of a grammar (syntax definition), as the `name` field of
/// `syntect::parsing::SyntaxReference` holds it.
pub uninterp spec fn grammar_name(s: syntect::parsing::SyntaxReference) -> Seq<char>;

/// The grammar, by name, that the default grammar table assigns to a file
/// name or extension token; `None` when no grammar claims the token.
/// `SyntaxSet::find_syntax_by_extension` decides this from the token alone.
pub uninterp spec fn grammar_for_token(token: Seq<char>) -> Option<Seq<char>>;

/// The grammar, by name, that the default grammar table assigns to a file
/// whose first line is `line` (shebangs, mode lines); `None` when none
/// matches.  `SyntaxSet::find_syntax_by_first_line` decides this from the
/// line alone.
pub uninterp spec fn grammar_for_first_line(line: Seq<char>) -> Option<Seq<char>>;

/// The grammar a highlighter was built for, by name.
pub uninterp spec fn hl_grammar(h: syntect::easy::HighlightLines) -> Seq<char>;

/// The lines a highlighter has been fed so far, oldest first.
pub uninterp spec fn fed_lines(h: syntect::easy::HighlightLines) -> Seq<Seq<char>>;

/// Whether colouring `line` succeeds after the lines `prior`, under the
/// grammar named `g` and the default table and theme.
pub uninterp spec fn highlight_ok(g: Seq<char>, prior: Seq<Seq<char>>, line: Seq<char>) -> bool;

/// The escape-coded text produced for `line` after the lines `prior`, under
/// the grammar named `g` and the default table and theme.
pub uninterp spec fn escaped_line(g: Seq<char>, prior: Seq<Seq<char>>, line: Seq<char>) -> Seq<
    char,
>;

/// Relies on `syntect::parsing::SyntaxSet::load_defaults_newlines`: the
/// grammar table compiled into the crate.
#[verifier::external_body]
fn load_default_syntaxes() -> syntect::parsing::SyntaxSet {
    syntect::parsing::SyntaxSet::load_defaults_newlines()
}

/// Whether the compiled-in default theme set holds a theme of this name.
/// `ThemeSet::load_defaults` builds the same set in every run, so this is a
/// function of the name alone.
pub uninterp spec fn theme_in_defaults(name: Seq<char>) -> bool;

/// Relies on `syntect::highlighting::ThemeSet::load_defaults` and the lookup
/// of `name` among its themes: `Some` exactly when the compiled-in theme set
/// holds a theme of that name.  Nothing further is claimed of the value.
#[verifier::external_body]
fn load_default_theme(name: &str) -> (r: Option<syntect::highlighting::Theme>)
    ensures
        r is Some <==> theme_in_defaults(name@),
{
    let mut ts = syntect::highlighting::ThemeSet::load_defaults();
    ts.themes.remove(name)
}

/// Relies on `syntect::parsing::SyntaxSet::find_syntax_by_extension`, called
/// on the default grammar table: the grammar that claims the token, if any.
#[verifier::external_body]
fn syntax_for_token<'s>(ss: &'s syntect::parsing::SyntaxSet, token: &str) -> (r: Option<
    &'s syntect::parsing::SyntaxReference,
>)
    ensures
        (match r {
            Some(s) => grammar_for_token(token@) == Some(grammar_name(*s)),
            None => grammar_for_token(token@) is None,
        }),
{
    ss.find_syntax_by_extension(token)
}

/// Relies on `syntect::parsing::SyntaxSet::find_syntax_by_first_line`, called
/// on the default grammar table: the grammar whose first-line rule matches,
/// if any.
#[verifier::external_body]
fn syntax_for_first_line<'s>(ss: &'s syntect::parsing::SyntaxSet, line: &str) -> (r: Option<
    &'s syntect::parsing::SyntaxReference,
>)
    ensures
        (match r {
            Some(s) => grammar_for_first_line(line@) == Some(grammar_name(*s)),
            None => grammar_for_first_line(line@) is None,
        }),
{
    ss.find_syntax_by_first_line(line)
}

/// Relies on `syntect::easy::HighlightLines::new`: a fresh highlighter for
/// the given grammar and theme, with no lines fed yet.
#[verifier::external_body]
fn new_highlighter<'t>(
    syntax: &syntect::parsing::SyntaxReference,
    theme: &'t syntect::highlighting::Theme,
) -> (h: syntect::easy::HighlightLines<'t>)
    ensures
        hl_grammar(h) == grammar_name(*syntax),
        fed_lines(h) == Seq::<Seq<char>>::empty(),
{
    syntect::easy::HighlightLines::new(syntax, theme)
}

/// Relies on `syntect::easy::HighlightLines::highlight_line`, which advances
/// the grammar state over the line and classifies its regions, and on
/// `syntect::util::as_24_bit_terminal_escaped`, which turns the classified
/// regions into one escape-coded string.  On the rare parse failure it
/// returns `None` and nothing is claimed of the highlighter's state.
#[verifier::external_body]
fn highlight_one_line(
    h: &mut syntect::easy::HighlightLines,
    ss: &syntect::parsing::SyntaxSet,
    line: &str,
) -> (r: Option<String>)
    ensures
        r is Some <==> highlight_ok(hl_grammar(*old(h)), fed_lines(*old(h)), line@),
        r matches Some(s) ==> s@ == escaped_line(hl_grammar(*old(h)), fed_lines(*old(h)), line@),
        r is Some ==> hl_grammar(*final(h)) == hl_grammar(*old(h)),
        r is Some ==> fed_lines(*final(h)) == fed_lines(*old(h)).push(line@),
{
    match h.highlight_line(line, ss) {
        Ok(regions) => Some(syntect::util::as_24_bit_terminal_escaped(&regions[..], true)),
        Err(_) => None,
    }
}

/// The position right after the last occurrence of `c` in `s`; 0 when `c`
/// does not occur.
pub open spec fn start_after_last(s: Seq<char>, c: char) -> int
    decreases s.len(),
{
    if s.len() == 0 {
        0
    } else if s.last() == c {
        s.len() as int
    } else {
        start_after_last(s.drop_last(), c)
    }
}

/// The grammar resolved for a file: first by its file name (the part of the
/// path after the last `/`), then by its extension (the part of the file
/// name after its last `.`, when that dot is preceded by at least one
/// character), then by the file's first line.  `None` when no grammar claims
/// the file.
pub open spec fn grammar_of(path: Seq<char>, first_line: Seq<char>) -> Option<Seq<char>> {
    let name = path.skip(start_after_last(path, '/'));
    match grammar_for_token(name) {
        Some(g) => Some(g),
        None => {
            let d = start_after_last(name, '.');
            let by_ext = if d >= 2 {
                grammar_for_token(name.skip(d))
            } else {
                None
            };
            match by_ext {
                Some(g) => Some(g),
                None => grammar_for_first_line(first_line),
            }
        },
    }
}

/// Finds the position right after the last occurrence of `c` in `s`.
fn index_after_last(s: &str, c: char) -> (r: usize)
    ensures
        r == start_after_last(s@, c),
        r <= s@.len(),
{
    let n = s.unicode_len();
    let mut i: usize = n;
    proof {
        assert(s@.take(n as int) =~= s@);
    }
    while i > 0
        invariant
            i <= n,
            n == s@.len(),
            start_after_last(s@, c) == start_after_last(s@.take(i as int), c),
        decreases i,
    {
        if s.get_char(i - 1) == c {
            proof {
                assert(s@.take(i as int).last() == s@[i - 1]);
            }
            return i;
        }
        proof {
            assert(s@.take(i as int).drop_last() =~= s@.take(i as int - 1));
        }
        i = i - 1;
    }
    proof {
        assert(s@.take(0).len() == 0);
    }
    0
}

/// The grammar table and theme the decorator works with, loaded once per run
/// and read-only afterwards.
pub struct HighlightAssets {
    pub(crate) syntaxes: syntect::parsing::SyntaxSet,
    pub(crate) theme: syntect::highlighting::Theme,
}

impl HighlightAssets {
    /// Loads the default grammar table and the viewer's theme; `None`
    /// exactly when the compiled-in theme set lacks that theme.
    pub fn load() -> (r: Option<HighlightAssets>)
        ensures
            r is Some <==> theme_in_defaults("base16-ocean.dark"@),
    {
        let syntaxes = load_default_syntaxes();
        match load_default_theme("base16-ocean.dark") {
            Some(theme) => Some(HighlightAssets { syntaxes, theme }),
            None => None,
        }
    }

    /// Resolves the grammar for a file, as `grammar_of` says: by file name,
    /// then by extension, then by the file's first line.
    pub fn resolve_grammar<'s>(&'s self, path: &str, first_line: &str) -> (r: Option<
        &'s syntect::parsing::SyntaxReference,
    >)
        ensures
            (match r {
                Some(s) => grammar_of(path@, first_line@) == Some(grammar_name(*s)),
                None => grammar_of(path@, first_line@) is None,
            }),
    {
        let n = path.unicode_len();
        let start = index_after_last(path, '/');
        let name = path.substring_char(start, n);
        proof {
            assert(name@ =~= path@.skip(start_after_last(path@, '/')));
        }
        if let Some(s) = syntax_for_token(&self.syntaxes, name) {
            return Some(s);
        }
        let d = index_after_last(name, '.');
        if d >= 2 {
            let ext = name.substring_char(d, name.unicode_len());
            proof {
                assert(ext@ =~= name@.skip(d as int));
            }
            if let Some(s) = syntax_for_token(&self.syntaxes, ext) {
                return Some(s);
            }
        }
        syntax_for_first_line(&self.syntaxes, first_line)
    }

    /// Starts a fresh highlighter for one file, under the given grammar.
    pub fn start_file<'t>(&'t self, syntax: &syntect::parsing::SyntaxReference) -> (h:
        syntect::easy::HighlightLines<'t>)
        ensures
            hl_grammar(h) == grammar_name(*syntax),
            fed_lines(h) == Seq::<Seq<char>>::empty(),
    {
        new_highlighter(syntax, &self.theme)
    }

    /// Colours one line, advancing the highlighter's state; `None` on the
    /// rare parse failure, after which the state is not used again.
    pub fn colour_line(
        &self,
        h: &mut syntect::easy::HighlightLines,
        line: &str,
    ) -> (r: Option<String>)
        ensures
            r is Some <==> highlight_ok(hl_grammar(*old(h)), fed_lines(*old(h)), line@),
            r matches Some(s) ==> s@ == escaped_line(
                hl_grammar(*old(h)),
                fed_lines(*old(h)),
                line@,
            ),
            r is Some ==> hl_grammar(*final(h)) == hl_grammar(*old(h)),
            r is Some ==> fed_lines(*final(h)) == fed_lines(*old(h)).push(line@),
    {
        highlight_one_line(h, &self.syntaxes, line)
    }
}

} // verus!
