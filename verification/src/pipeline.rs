//! The per-file pipeline and its orchestration: from one file's fetched data
//! to the exact strings printed for it and the failure reported for it, in
//! plain mode and in decorated mode.
//!
//! Decoration is stateful across lines, so when a filter and decoration are
//! both requested the decorator sees the full line stream and the keep/drop
//! decision is applied to the decorated result; `lemma_filter_preserves_decoration`
//! proves that the filter therefore never alters how a kept line is coloured.
//!
//! A parse failure on one line of a decorated file ends that file with a
//! per-file failure; the lines already emitted stand.  This is the fail-fast
//! arm of the decorator's tolerance policy, applied consistently.

use vstd::prelude::*;

use crate::filter::{filter_pattern, keep_line, keeps, regex_match, LineFilter};
use crate::highlight::{
    escaped_line, fed_lines, grammar_of, highlight_ok, hl_grammar, HighlightAssets,
};
use crate::messages;
use crate::messages::{bark_spec, fetch_header_spec, highlight_header_spec};
use crate::views_of;

verus! {

/// What the surrounding program found when it went for one file's contents.
/// The program reads; the pipeline decides what is emitted and reported.
pub enum FileData {
    /// The existence probe did not find the file.
    Missing,
    /// The file could not be opened; the text describes the cause.
    Unreadable(String),
    /// The lines read, in order, without their terminators.  `read_error`
    /// describes a failure that ended reading early; the lines before it
    /// stand.
    Content { lines: Vec<String>, read_error: Option<String> },
}

/// The mathematical content of a `FileData`.
pub enum FileDataModel {
    Missing,
    Unreadable(Seq<char>),
    Content { lines: Seq<Seq<char>>, read_error: Option<Seq<char>> },
}

impl View for FileData {
    type V = FileDataModel;

    open spec fn view(&self) -> FileDataModel {
        match self {
            FileData::Missing => FileDataModel::Missing,
            FileData::Unreadable(c) => FileDataModel::Unreadable(c@),
            FileData::Content { lines, read_error } => FileDataModel::Content {
                lines: views_of(lines@),
                read_error: match read_error {
                    Some(c) => Some(c@),
                    None => None,
                },
            },
        }
    }
}

/// A per-file failure, reported and attributed to its file; no failure of
/// one file stops the files after it.
#[derive(PartialEq, Eq, Debug)]
pub enum JobError {
    /// The existence probe did not find the file.
    NotFound,
    /// The file could not be opened.
    Unreadable(String),
    /// Reading failed mid-stream; the lines emitted before it stand.
    ReadFailure(String),
    /// Decorated mode only: no grammar claims the file, and nothing of it is
    /// emitted.
    UnsupportedFile,
    /// Decorated mode only: a line could not be coloured; the lines emitted
    /// before it stand.
    HighlightFailure,
}

/// The mathematical content of a `JobError`.
pub enum JobErrorModel {
    NotFound,
    Unreadable(Seq<char>),
    ReadFailure(Seq<char>),
    UnsupportedFile,
    HighlightFailure,
}

impl View for JobError {
    type V = JobErrorModel;

    open spec fn view(&self) -> JobErrorModel {
        match self {
            JobError::NotFound => JobErrorModel::NotFound,
            JobError::Unreadable(c) => JobErrorModel::Unreadable(c@),
            JobError::ReadFailure(c) => JobErrorModel::ReadFailure(c@),
            JobError::UnsupportedFile => JobErrorModel::UnsupportedFile,
            JobError::HighlightFailure => JobErrorModel::HighlightFailure,
        }
    }
}

/// The view of an optional failure.
pub open spec fn err_view(e: Option<JobError>) -> Option<JobErrorModel> {
    match e {
        Option::None => None,
        Option::Some(x) => Some(x@),
    }
}

/// One file's result: the strings to print, in order, and the failure to
/// report, if any.
pub struct JobReport {
    pub output: Vec<String>,
    pub error: Option<JobError>,
}

/// The mathematical content of a report.
pub open spec fn report_model(r: JobReport) -> (Seq<Seq<char>>, Option<JobErrorModel>) {
    (views_of(r.output@), err_view(r.error))
}

/// The items the plain pipeline emits for `lines`: the kept lines, in order,
/// each marked.
pub open spec fn grep_items(pat: Option<Seq<char>>, lines: Seq<Seq<char>>) -> Seq<Seq<char>>
    decreases lines.len(),
{
    if lines.len() == 0 {
        Seq::empty()
    } else {
        grep_items(pat, lines.drop_last()) + (if keeps(pat, lines.last()) {
            seq![bark_spec(lines.last())]
        } else {
            Seq::empty()
        })
    }
}

/// The decorated run over `lines` fed after `prior`, under the grammar named
/// `g`: the items emitted (the keep/drop decision of `pat` applied to each
/// raw line, the decorated text emitted), and whether a colouring failure cut
/// the file short.
pub open spec fn decor_run(
    g: Seq<char>,
    prior: Seq<Seq<char>>,
    pat: Option<Seq<char>>,
    lines: Seq<Seq<char>>,
) -> (Seq<Seq<char>>, bool)
    decreases lines.len(),
{
    if lines.len() == 0 {
        (Seq::empty(), false)
    } else if !highlight_ok(g, prior, lines.first()) {
        (Seq::empty(), true)
    } else {
        let item = escaped_line(g, prior, lines.first());
        let rest = decor_run(g, prior.push(lines.first()), pat, lines.drop_first());
        ((if keeps(pat, lines.first()) {
            seq![item]
        } else {
            Seq::empty()
        }) + rest.0, rest.1)
    }
}

/// What one file's job must produce: the emitted items and the reported
/// failure, as functions of the filter, the mode, the file's name and its
/// fetched data.
pub open spec fn job_model(
    pat: Option<Seq<char>>,
    decorate: bool,
    filename: Seq<char>,
    data: FileDataModel,
) -> (Seq<Seq<char>>, Option<JobErrorModel>) {
    match data {
        FileDataModel::Missing => (Seq::empty(), Some(JobErrorModel::NotFound)),
        FileDataModel::Unreadable(cause) => (Seq::empty(), Some(JobErrorModel::Unreadable(cause))),
        FileDataModel::Content { lines, read_error } => {
            let read_err = match read_error {
                Some(c) => Some(JobErrorModel::ReadFailure(c)),
                None => None,
            };
            if !decorate {
                (seq![fetch_header_spec(filename)] + grep_items(pat, lines), read_err)
            } else {
                let first = if lines.len() > 0 {
                    lines.first()
                } else {
                    Seq::empty()
                };
                match grammar_of(filename, first) {
                    None => (Seq::empty(), Some(JobErrorModel::UnsupportedFile)),
                    Some(g) => {
                        let run = decor_run(g, Seq::empty(), pat, lines);
                        (
                            seq![highlight_header_spec(filename)] + run.0,
                            if run.1 {
                                Some(JobErrorModel::HighlightFailure)
                            } else {
                                read_err
                            },
                        )
                    },
                }
            }
        },
    }
}

/// Runs one file's job in plain mode: a header, then each kept line marked,
/// then the read failure if one ended the file early.
pub fn run_grep_job(f: &Option<LineFilter>, filename: &str, data: &FileData) -> (r: JobReport)
    ensures
        report_model(r) == job_model(filter_pattern(*f), false, filename@, data@),
{
    match data {
        FileData::Missing => {
            let r = JobReport { output: Vec::new(), error: Some(JobError::NotFound) };
            proof {
                assert(views_of(r.output@) =~= Seq::<Seq<char>>::empty());
            }
            r
        },
        FileData::Unreadable(c) => {
            let r = JobReport {
                output: Vec::new(),
                error: Some(JobError::Unreadable(c.clone())),
            };
            proof {
                assert(views_of(r.output@) =~= Seq::<Seq<char>>::empty());
            }
            r
        },
        FileData::Content { lines, read_error } => {
            let ghost p = filter_pattern(*f);
            let ghost lv = views_of(lines@);
            let mut out: Vec<String> = Vec::new();
            let header = messages::fetch_header(filename);
            proof {
                crate::lemma_views_of_push(out@, header);
                assert(views_of(Seq::<String>::empty()) =~= Seq::<Seq<char>>::empty());
                assert(Seq::<Seq<char>>::empty().push(fetch_header_spec(filename@)) =~= seq![
                    fetch_header_spec(filename@),
                ]);
            }
            out.push(header);
            let n = lines.len();
            let mut i: usize = 0;
            proof {
                assert(lv.take(0) =~= Seq::<Seq<char>>::empty());
                assert(seq![fetch_header_spec(filename@)] + grep_items(p, lv.take(0)) =~= seq![
                    fetch_header_spec(filename@),
                ]);
            }
            while i < n
                invariant
                    i <= n,
                    n == lines.len(),
                    p == filter_pattern(*f),
                    lv == views_of(lines@),
                    views_of(out@) == seq![fetch_header_spec(filename@)] + grep_items(
                        p,
                        lv.take(i as int),
                    ),
                decreases n - i,
            {
                proof {
                    assert(lv.take(i as int + 1).drop_last() =~= lv.take(i as int));
                    assert(lv.take(i as int + 1).last() == lv[i as int]);
                    assert(lv[i as int] == lines@[i as int]@);
                }
                if keep_line(f, lines[i].as_str()) {
                    let item = messages::bark_line(lines[i].as_str());
                    proof {
                        crate::lemma_views_of_push(out@, item);
                        assert((seq![fetch_header_spec(filename@)] + grep_items(
                            p,
                            lv.take(i as int),
                        )).push(bark_spec(lv[i as int])) =~= seq![fetch_header_spec(filename@)]
                            + (grep_items(p, lv.take(i as int)) + seq![bark_spec(lv[i as int])]));
                    }
                    out.push(item);
                } else {
                    proof {
                        assert(grep_items(p, lv.take(i as int)) + Seq::<Seq<char>>::empty()
                            =~= grep_items(p, lv.take(i as int)));
                    }
                }
                i = i + 1;
            }
            proof {
                assert(lv.take(n as int) =~= lv);
            }
            let err = match read_error {
                Some(c) => Some(JobError::ReadFailure(c.clone())),
                None => None,
            };
            JobReport { output: out, error: err }
        },
    }
}

/// Splitting a decorated run: running over `a + b` is running over `a`, and,
/// unless that failed, going on over `b` with `a` fed into the state.
pub proof fn lemma_decor_split(
    g: Seq<char>,
    prior: Seq<Seq<char>>,
    pat: Option<Seq<char>>,
    a: Seq<Seq<char>>,
    b: Seq<Seq<char>>,
)
    ensures
        decor_run(g, prior, pat, a + b).1 == (decor_run(g, prior, pat, a).1 || decor_run(
            g,
            prior + a,
            pat,
            b,
        ).1),
        decor_run(g, prior, pat, a + b).0 == (if decor_run(g, prior, pat, a).1 {
            decor_run(g, prior, pat, a).0
        } else {
            decor_run(g, prior, pat, a).0 + decor_run(g, prior + a, pat, b).0
        }),
    decreases a.len(),
{
    if a.len() == 0 {
        assert(a + b =~= b);
        assert(prior + a =~= prior);
        assert(Seq::<Seq<char>>::empty() + decor_run(g, prior, pat, b).0 =~= decor_run(
            g,
            prior,
            pat,
            b,
        ).0);
    } else {
        let first = a.first();
        assert((a + b).len() > 0);
        assert((a + b).first() == first);
        if !highlight_ok(g, prior, first) {
        } else {
            assert((a + b).drop_first() =~= a.drop_first() + b);
            assert(prior.push(first) + a.drop_first() =~= prior + a);
            lemma_decor_split(g, prior.push(first), pat, a.drop_first(), b);
            let k: Seq<Seq<char>> = if keeps(pat, first) {
                seq![escaped_line(g, prior, first)]
            } else {
                Seq::empty()
            };
            let ra = decor_run(g, prior.push(first), pat, a.drop_first());
            let rb = decor_run(g, prior + a, pat, b);
            if !ra.1 {
                assert(k + (ra.0 + rb.0) =~= (k + ra.0) + rb.0);
            }
        }
    }
}

/// Runs one file's job in decorated mode: resolve the grammar (or fail the
/// whole file), then a header, then feed every line to the decorator in
/// order, emitting the decorated text of the kept lines, failing fast when a
/// line cannot be coloured.
pub fn run_highlight_job(
    f: &Option<LineFilter>,
    assets: &HighlightAssets,
    filename: &str,
    data: &FileData,
) -> (r: JobReport)
    ensures
        report_model(r) == job_model(filter_pattern(*f), true, filename@, data@),
{
    match data {
        FileData::Missing => {
            let r = JobReport { output: Vec::new(), error: Some(JobError::NotFound) };
            proof {
                assert(views_of(r.output@) =~= Seq::<Seq<char>>::empty());
            }
            r
        },
        FileData::Unreadable(c) => {
            let r = JobReport {
                output: Vec::new(),
                error: Some(JobError::Unreadable(c.clone())),
            };
            proof {
                assert(views_of(r.output@) =~= Seq::<Seq<char>>::empty());
            }
            r
        },
        FileData::Content { lines, read_error } => {
            let ghost p = filter_pattern(*f);
            let ghost lv = views_of(lines@);
            let first_line: &str = if lines.len() > 0 {
                lines[0].as_str()
            } else {
                ""
            };
            proof {
                reveal_strlit("");
                if lines.len() == 0 {
                    assert(first_line@ =~= Seq::<char>::empty());
                } else {
                    assert(first_line@ == lv.first());
                }
            }
            let syntax = match assets.resolve_grammar(filename, first_line) {
                Some(s) => s,
                None => {
                    let r = JobReport {
                        output: Vec::new(),
                        error: Some(JobError::UnsupportedFile),
                    };
                    proof {
                        assert(views_of(r.output@) =~= Seq::<Seq<char>>::empty());
                    }
                    return r;
                },
            };
            let ghost g = crate::highlight::grammar_name(*syntax);
            let mut h = assets.start_file(syntax);
            let mut out: Vec<String> = Vec::new();
            let header = messages::highlight_header(filename);
            proof {
                crate::lemma_views_of_push(out@, header);
                assert(views_of(Seq::<String>::empty()) =~= Seq::<Seq<char>>::empty());
                assert(Seq::<Seq<char>>::empty().push(highlight_header_spec(filename@)) =~= seq![
                    highlight_header_spec(filename@),
                ]);
            }
            out.push(header);
            let n = lines.len();
            let mut i: usize = 0;
            let mut failed: bool = false;
            proof {
                assert(lv.take(0) =~= Seq::<Seq<char>>::empty());
                assert(seq![highlight_header_spec(filename@)] + decor_run(
                    g,
                    Seq::empty(),
                    p,
                    lv.take(0),
                ).0 =~= seq![highlight_header_spec(filename@)]);
            }
            while i < n && !failed
                invariant
                    i <= n,
                    n == lines.len(),
                    p == filter_pattern(*f),
                    lv == views_of(lines@),
                    !failed ==> hl_grammar(h) == g && fed_lines(h) == lv.take(i as int),
                    !failed ==> views_of(out@) == seq![highlight_header_spec(filename@)]
                        + decor_run(g, Seq::empty(), p, lv.take(i as int)).0,
                    !failed ==> !decor_run(g, Seq::empty(), p, lv.take(i as int)).1,
                    failed ==> views_of(out@) == seq![highlight_header_spec(filename@)]
                        + decor_run(g, Seq::empty(), p, lv).0,
                    failed ==> decor_run(g, Seq::empty(), p, lv).1,
                decreases n - i + (if failed {
                    0int
                } else {
                    1int
                }),
            {
                proof {
                    assert(lv[i as int] == lines@[i as int]@);
                }
                let line = lines[i].as_str();
                match assets.colour_line(&mut h, line) {
                    Some(item) => {
                        proof {
                            assert(lv.take(i as int + 1) =~= lv.take(i as int) + seq![
                                lv[i as int],
                            ]);
                            lemma_decor_split(
                                g,
                                Seq::empty(),
                                p,
                                lv.take(i as int),
                                seq![lv[i as int]],
                            );
                            assert(Seq::<Seq<char>>::empty() + lv.take(i as int) =~= lv.take(
                                i as int,
                            ));
                            let single = seq![lv[i as int]];
                            assert(single.drop_first() =~= Seq::<Seq<char>>::empty());
                            assert(decor_run(g, lv.take(i as int).push(lv[i as int]), p, single
                                .drop_first()).0 =~= Seq::<Seq<char>>::empty());
                            assert(lv.take(i as int).push(lv[i as int]) =~= lv.take(i as int + 1));
                        }
                        if keep_line(f, line) {
                            proof {
                                crate::lemma_views_of_push(out@, item);
                                assert((seq![highlight_header_spec(filename@)] + decor_run(
                                    g,
                                    Seq::empty(),
                                    p,
                                    lv.take(i as int),
                                ).0).push(escaped_line(g, lv.take(i as int), lv[i as int]))
                                    =~= seq![highlight_header_spec(filename@)] + (decor_run(
                                    g,
                                    Seq::empty(),
                                    p,
                                    lv.take(i as int),
                                ).0 + seq![escaped_line(g, lv.take(i as int), lv[i as int])]));
                            }
                            out.push(item);
                        } else {
                            proof {
                                assert(decor_run(g, Seq::empty(), p, lv.take(i as int)).0 + Seq::<
                                    Seq<char>,
                                >::empty() =~= decor_run(g, Seq::empty(), p, lv.take(i as int)).0);
                            }
                        }
                        i = i + 1;
                    },
                    None => {
                        proof {
                            assert(lv =~= lv.take(i as int) + lv.skip(i as int));
                            lemma_decor_split(
                                g,
                                Seq::empty(),
                                p,
                                lv.take(i as int),
                                lv.skip(i as int),
                            );
                            assert(Seq::<Seq<char>>::empty() + lv.take(i as int) =~= lv.take(
                                i as int,
                            ));
                            assert(lv.skip(i as int).len() > 0);
                            assert(lv.skip(i as int).first() == lv[i as int]);
                            assert(decor_run(g, Seq::empty(), p, lv).0 =~= decor_run(
                                g,
                                Seq::empty(),
                                p,
                                lv.take(i as int),
                            ).0 + Seq::<Seq<char>>::empty());
                        }
                        failed = true;
                    },
                }
            }
            if failed {
                return JobReport { output: out, error: Some(JobError::HighlightFailure) };
            }
            proof {
                assert(lv.take(n as int) =~= lv);
            }
            let err = match read_error {
                Some(c) => Some(JobError::ReadFailure(c.clone())),
                None => None,
            };
            JobReport { output: out, error: err }
        },
    }
}

/// With no filter, the plain pipeline emits one marked line for each input
/// line, in the input order.
pub proof fn lemma_plain_marks_every_line(lines: Seq<Seq<char>>)
    ensures
        grep_items(None, lines).len() == lines.len(),
        forall|i: int|
            0 <= i < lines.len() ==> grep_items(None, lines)[i] == bark_spec(lines[i]),
    decreases lines.len(),
{
    if lines.len() > 0 {
        lemma_plain_marks_every_line(lines.drop_last());
    }
}

/// With no filter and no decoration, a fully read file of N lines yields its
/// header and then exactly its N lines, marked, in the original order, with
/// no failure.
pub proof fn lemma_plain_job_output(filename: Seq<char>, lines: Seq<Seq<char>>)
    ensures
        ({
            let m = job_model(
                None,
                false,
                filename,
                FileDataModel::Content { lines, read_error: None },
            );
            m.0.len() == lines.len() + 1 && m.0[0] == fetch_header_spec(filename) && (forall|
                i: int,
            |
                0 <= i < lines.len() ==> m.0[i + 1] == bark_spec(lines[i])) && m.1 is None
        }),
{
    lemma_plain_marks_every_line(lines);
}

/// The lines of `lines` that the pattern `p` matches, in order.
pub open spec fn kept_lines(p: Seq<char>, lines: Seq<Seq<char>>) -> Seq<Seq<char>>
    decreases lines.len(),
{
    if lines.len() == 0 {
        Seq::empty()
    } else {
        kept_lines(p, lines.drop_last()) + (if regex_match(p, lines.last()) {
            seq![lines.last()]
        } else {
            Seq::empty()
        })
    }
}

/// With a filter, the plain pipeline emits exactly the matching lines,
/// marked, in the input order; a pattern that matches no line yields no
/// items at all (and, the read having succeeded, no failure either; see
/// `job_model`).
pub proof fn lemma_filter_selects_matching_lines(p: Seq<char>, lines: Seq<Seq<char>>)
    ensures
        grep_items(Some(p), lines) == kept_lines(p, lines).map_values(
            |l: Seq<char>| bark_spec(l),
        ),
        (forall|i: int| 0 <= i < lines.len() ==> !regex_match(p, lines[i])) ==> grep_items(
            Some(p),
            lines,
        ) == Seq::<Seq<char>>::empty(),
    decreases lines.len(),
{
    let marked = |l: Seq<char>| bark_spec(l);
    if lines.len() == 0 {
        assert(kept_lines(p, lines).map_values(marked) =~= Seq::<Seq<char>>::empty());
    } else {
        lemma_filter_selects_matching_lines(p, lines.drop_last());
        assert(forall|i: int|
            0 <= i < lines.drop_last().len() ==> lines.drop_last()[i] == lines[i]);
        if regex_match(p, lines.last()) {
            assert((kept_lines(p, lines.drop_last()) + seq![lines.last()]).map_values(marked)
                =~= kept_lines(p, lines.drop_last()).map_values(marked) + seq![
                bark_spec(lines.last()),
            ]);
        } else {
            assert(kept_lines(p, lines.drop_last()) + Seq::<Seq<char>>::empty() =~= kept_lines(
                p,
                lines.drop_last(),
            ));
            assert(grep_items(Some(p), lines.drop_last()) + Seq::<Seq<char>>::empty()
                =~= grep_items(Some(p), lines.drop_last()));
        }
    }
}

/// Running a job twice over the same unchanged input gives identical
/// results: a report is a function of the job's inputs alone, so output is
/// byte-identical across runs, and no file's report depends on any other
/// file's data.
pub proof fn lemma_rerun_identical(
    pat: Option<Seq<char>>,
    decorate: bool,
    filename: Seq<char>,
    data: FileDataModel,
    first: (Seq<Seq<char>>, Option<JobErrorModel>),
    second: (Seq<Seq<char>>, Option<JobErrorModel>),
)
    requires
        first == job_model(pat, decorate, filename, data),
        second == job_model(pat, decorate, filename, data),
    ensures
        first == second,
{
}

/// A missing file yields no output items and exactly the not-found failure,
/// whose report text carries the file's name.
pub proof fn lemma_missing_file(pat: Option<Seq<char>>, decorate: bool, filename: Seq<char>)
    ensures
        job_model(pat, decorate, filename, FileDataModel::Missing).0 == Seq::<Seq<char>>::empty(),
        job_model(pat, decorate, filename, FileDataModel::Missing).1 == Some(
            JobErrorModel::NotFound,
        ),
        ({
            let msg = report_line_spec(filename, decorate, JobErrorModel::NotFound);
            exists|j: int|
                0 <= j && j + filename.len() <= msg.len() && #[trigger] msg.subrange(
                    j,
                    j + filename.len(),
                ) == filename
        }),
{
    let msg = report_line_spec(filename, decorate, JobErrorModel::NotFound);
    reveal_strlit("Can't find ");
    let j = "Can't find "@.len() as int;
    assert(msg.subrange(j, j + filename.len()) =~= filename);
    assert(0 <= j && j + filename.len() <= msg.len() && msg.subrange(j, j + filename.len())
        == filename);
}

/// The items of an unfiltered decorated run, each paired with its raw line
/// and kept exactly when the pattern `p` matches the raw line: discarding
/// after decorating.
pub open spec fn kept_of(p: Seq<char>, raws: Seq<Seq<char>>, items: Seq<Seq<char>>) -> Seq<
    Seq<char>,
>
    decreases items.len(),
{
    if items.len() == 0 || raws.len() == 0 {
        Seq::empty()
    } else {
        (if regex_match(p, raws.first()) {
            seq![items.first()]
        } else {
            Seq::empty()
        }) + kept_of(p, raws.drop_first(), items.drop_first())
    }
}

/// Filtering never alters the decoration.  Under any grammar and any prior
/// state, the filtered decorated run fails exactly where the unfiltered one
/// does, and its items are exactly the unfiltered run's items at the kept
/// raw lines: decorating with the filter equals decorating everything and
/// discarding afterwards, so every kept line is coloured identically in
/// both.
pub proof fn lemma_filter_preserves_decoration(
    g: Seq<char>,
    prior: Seq<Seq<char>>,
    p: Seq<char>,
    lines: Seq<Seq<char>>,
)
    ensures
        decor_run(g, prior, Some(p), lines).1 == decor_run(g, prior, None, lines).1,
        decor_run(g, prior, Some(p), lines).0 == kept_of(
            p,
            lines,
            decor_run(g, prior, None, lines).0,
        ),
    decreases lines.len(),
{
    if lines.len() == 0 {
    } else if !highlight_ok(g, prior, lines.first()) {
    } else {
        let first = lines.first();
        let item = escaped_line(g, prior, first);
        lemma_filter_preserves_decoration(g, prior.push(first), p, lines.drop_first());
        let rest_none = decor_run(g, prior.push(first), None, lines.drop_first());
        let rest_some = decor_run(g, prior.push(first), Some(p), lines.drop_first());
        assert((seq![item] + rest_none.0).first() == item);
        assert((seq![item] + rest_none.0).drop_first() =~= rest_none.0);
        if regex_match(p, first) {
        } else {
            assert(Seq::<Seq<char>>::empty() + rest_some.0 =~= rest_some.0);
            assert(Seq::<Seq<char>>::empty() + kept_of(p, lines.drop_first(), rest_none.0)
                =~= kept_of(p, lines.drop_first(), rest_none.0));
        }
    }
}

/// The text a per-file failure is announced with, in the mode the file was
/// processed under.
pub open spec fn report_line_spec(filename: Seq<char>, decorate: bool, e: JobErrorModel) -> Seq<
    char,
> {
    match e {
        JobErrorModel::NotFound => messages::not_found_spec(filename),
        JobErrorModel::Unreadable(c) => if decorate {
            messages::highlight_failed_spec(filename, c)
        } else {
            messages::fetch_failed_spec(filename, c)
        },
        JobErrorModel::ReadFailure(c) => if decorate {
            messages::highlight_failed_spec(filename, c)
        } else {
            messages::fetch_failed_spec(filename, c)
        },
        JobErrorModel::UnsupportedFile => messages::highlight_failed_spec(
            filename,
            "File can't be highlighted (unsupported or not found)"@,
        ),
        JobErrorModel::HighlightFailure => messages::highlight_failed_spec(
            filename,
            "A line could not be highlighted"@,
        ),
    }
}

/// Builds the announcement for a per-file failure.
pub fn report_line(filename: &str, decorate: bool, e: &JobError) -> (r: String)
    ensures
        r@ == report_line_spec(filename@, decorate, e@),
{
    match e {
        JobError::NotFound => messages::not_found_message(filename),
        JobError::Unreadable(c) => if decorate {
            messages::highlight_failed_message(filename, c.as_str())
        } else {
            messages::fetch_failed_message(filename, c.as_str())
        },
        JobError::ReadFailure(c) => if decorate {
            messages::highlight_failed_message(filename, c.as_str())
        } else {
            messages::fetch_failed_message(filename, c.as_str())
        },
        JobError::UnsupportedFile => messages::highlight_failed_message(
            filename,
            "File can't be highlighted (unsupported or not found)",
        ),
        JobError::HighlightFailure => messages::highlight_failed_message(
            filename,
            "A line could not be highlighted",
        ),
    }
}

} // verus!
