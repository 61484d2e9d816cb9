//! The flag list: which tokens name files, which set the filter pattern, and
//! which switch decoration on.  The scan model pins the parse down token by
//! token; a configuration error ends the run before any file is touched.

use vstd::prelude::*;

use crate::filter::{filter_pattern, regex_valid, LineFilter};
use crate::messages;

verus! {

/// A failure of the invocation itself; no file is processed after one.
#[derive(PartialEq, Eq, Structural, Clone, Copy, Debug)]
pub enum ConfigError {
    /// No file was named.
    Usage,
    /// `--grep` stood last, with no pattern after it.
    MissingPatternArg,
    /// The pattern after `--grep` was refused by the pattern compiler.
    InvalidPattern,
}

/// One run's work: the files to process, in order, and the flags that apply
/// to all of them.
pub struct Invocation {
    pub filenames: Vec<String>,
    pub filter: Option<LineFilter>,
    pub highlight: bool,
}

/// The scan over the remaining tokens, carrying the files, pattern and flag
/// gathered so far.  `--grep` consumes the following token as the pattern
/// (the last one wins); `--highlight` switches decoration on; every other
/// token names a file.  An invocation that names no file is a usage error.
pub open spec fn scan_args(
    files: Seq<Seq<char>>,
    pat: Option<Seq<char>>,
    hl: bool,
    rest: Seq<Seq<char>>,
) -> Result<(Seq<Seq<char>>, Option<Seq<char>>, bool), ConfigError>
    decreases rest.len(),
{
    if rest.len() == 0 {
        if files.len() == 0 {
            Err(ConfigError::Usage)
        } else {
            Ok((files, pat, hl))
        }
    } else if rest.first() == "--grep"@ {
        if rest.len() == 1 {
            Err(ConfigError::MissingPatternArg)
        } else if regex_valid(rest[1]) {
            scan_args(files, Some(rest[1]), hl, rest.skip(2))
        } else {
            Err(ConfigError::InvalidPattern)
        }
    } else if rest.first() == "--highlight"@ {
        scan_args(files, pat, true, rest.skip(1))
    } else {
        scan_args(files.push(rest.first()), pat, hl, rest.skip(1))
    }
}

/// What parsing the whole token list (the arguments after the program name)
/// must produce.
pub open spec fn parse_model(args: Seq<Seq<char>>) -> Result<
    (Seq<Seq<char>>, Option<Seq<char>>, bool),
    ConfigError,
> {
    scan_args(Seq::empty(), None, false, args)
}

/// Parses the arguments after the program name, compiling the filter pattern
/// as it is met, exactly as the scan model says.
pub fn parse_args(args: &Vec<String>) -> (r: Result<Invocation, ConfigError>)
    ensures
        (match (r, parse_model(crate::views_of(args@))) {
            (Ok(inv), Ok(s)) => crate::views_of(inv.filenames@) == s.0 && filter_pattern(
                inv.filter,
            ) == s.1 && inv.highlight == s.2,
            (Err(e1), Err(e2)) => e1 == e2,
            _ => false,
        }),
{
    let grep_flag: String = "--grep".to_owned();
    let hl_flag: String = "--highlight".to_owned();
    let mut files: Vec<String> = Vec::new();
    let mut filt: Option<LineFilter> = None;
    let mut hl: bool = false;
    let mut i: usize = 0;
    let n = args.len();
    proof {
        assert(crate::views_of(files@) =~= Seq::<Seq<char>>::empty());
        assert(crate::views_of(args@).skip(0) =~= crate::views_of(args@));
    }
    while i < n
        invariant
            i <= n,
            n == args.len(),
            grep_flag@ == "--grep"@,
            hl_flag@ == "--highlight"@,
            parse_model(crate::views_of(args@)) == scan_args(
                crate::views_of(files@),
                filter_pattern(filt),
                hl,
                crate::views_of(args@).skip(i as int),
            ),
        decreases n - i,
    {
        proof {
            assert(crate::views_of(args@).skip(i as int).first() == args@[i as int]@);
        }
        if args[i] == grep_flag {
            if i + 1 < n {
                proof {
                    assert(crate::views_of(args@).skip(i as int)[1] == args@[i as int + 1]@);
                    assert(crate::views_of(args@).skip(i as int).skip(2) =~= crate::views_of(
                        args@,
                    ).skip(i as int + 2));
                }
                match LineFilter::compile(args[i + 1].as_str()) {
                    Some(f) => {
                        filt = Some(f);
                        i = i + 2;
                    },
                    None => {
                        return Err(ConfigError::InvalidPattern);
                    },
                }
            } else {
                proof {
                    assert(crate::views_of(args@).skip(i as int).len() == 1);
                }
                return Err(ConfigError::MissingPatternArg);
            }
        } else if args[i] == hl_flag {
            proof {
                assert(crate::views_of(args@).skip(i as int).skip(1) =~= crate::views_of(
                    args@,
                ).skip(i as int + 1));
            }
            hl = true;
            i = i + 1;
        } else {
            proof {
                assert(crate::views_of(args@).skip(i as int).skip(1) =~= crate::views_of(
                    args@,
                ).skip(i as int + 1));
                crate::lemma_views_of_push(files@, args@[i as int]);
            }
            files.push(args[i].clone());
            i = i + 1;
        }
    }
    proof {
        assert(crate::views_of(args@).skip(n as int) =~= Seq::<Seq<char>>::empty());
    }
    if files.len() == 0 {
        Err(ConfigError::Usage)
    } else {
        Ok(Invocation { filenames: files, filter: filt, highlight: hl })
    }
}

/// The report a configuration error is announced with.
pub open spec fn config_error_spec(e: ConfigError) -> Seq<char> {
    match e {
        ConfigError::Usage => messages::usage_spec(),
        ConfigError::MissingPatternArg => messages::missing_pattern_spec(),
        ConfigError::InvalidPattern => messages::invalid_pattern_spec(),
    }
}

/// Builds the report for a configuration error.
pub fn config_error_message(e: &ConfigError) -> (r: String)
    ensures
        r@ == config_error_spec(*e),
{
    match e {
        ConfigError::Usage => messages::usage_message(),
        ConfigError::MissingPatternArg => messages::missing_pattern_message(),
        ConfigError::InvalidPattern => messages::invalid_pattern_message(),
    }
}

} // verus!
