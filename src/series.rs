use vstd::prelude::*;
use crate::report::{CodeStats, CommitReport};

verus! {

/// Relies on the derived `PartialEq` of `tokei::LanguageType`, a field-less
/// enum: two values are equal exactly when they are the same language.
#[verifier::external_body]
fn same_language(a: &tokei::LanguageType, b: &tokei::LanguageType) -> (r: bool)
    ensures
        r == (*a == *b),
{
    a == b
}

/// Which count of a language a series follows.
#[derive(Clone, Copy, Debug, PartialEq, Eq, Structural)]
pub enum Metric {
    Code,
    Files,
    Comments,
    Blanks,
}

pub open spec fn metric_value(s: CodeStats, m: Metric) -> usize {
    match m {
        Metric::Code => s.code,
        Metric::Files => s.files,
        Metric::Comments => s.comments,
        Metric::Blanks => s.blanks,
    }
}

/// The first entry of `stats` for language `l`, if any.
pub open spec fn find_language(stats: Seq<CodeStats>, l: tokei::LanguageType) -> Option<CodeStats>
    decreases stats.len(),
{
    if stats.len() == 0 {
        None
    } else if stats[0].language == l {
        Some(stats[0])
    } else {
        find_language(stats.drop_first(), l)
    }
}

/// The points of language `l` over `reports`: one `(commit date, count)` per
/// report that holds `l`, in report order.
pub open spec fn series(reports: Seq<CommitReport>, l: tokei::LanguageType, m: Metric) -> Seq<(i64, usize)>
    decreases reports.len(),
{
    if reports.len() == 0 {
        seq![]
    } else {
        let prev = series(reports.drop_last(), l, m);
        match find_language(reports.last().stats@, l) {
            Some(s) => prev.push((reports.last().commit_date, metric_value(s, m))),
            None => prev,
        }
    }
}

/// The value of `m` for language `l` in `stats`, if `l` is there.
pub fn language_value(stats: &Vec<CodeStats>, l: &tokei::LanguageType, m: Metric) -> (r: Option<usize>)
    ensures
        r == (match find_language(stats@, *l) {
            Some(s) => Some(metric_value(s, m)),
            None => None::<usize>,
        }),
{
    let mut i: usize = 0;
    assert(stats@.subrange(0, stats@.len() as int) =~= stats@);
    while i < stats.len()
        invariant
            0 <= i <= stats@.len(),
            find_language(stats@, *l) == find_language(stats@.subrange(i as int, stats@.len() as int), *l),
        decreases stats.len() - i,
    {
        proof {
            let rest = stats@.subrange(i as int, stats@.len() as int);
            assert(rest[0] == stats@[i as int]);
            assert(rest.drop_first() =~= stats@.subrange(i + 1, stats@.len() as int));
        }
        if same_language(&stats[i].language, l) {
            let s = &stats[i];
            return Some(
                match m {
                    Metric::Code => s.code,
                    Metric::Files => s.files,
                    Metric::Comments => s.comments,
                    Metric::Blanks => s.blanks,
                },
            );
        }
        i = i + 1;
    }
    assert(stats@.subrange(i as int, stats@.len() as int).len() == 0);
    None
}

/// The plot series of language `l`: for each report holding `l`, in order,
/// its commit date and the chosen count.
pub fn language_series(reports: &Vec<CommitReport>, l: &tokei::LanguageType, m: Metric) -> (r: Vec<(i64, usize)>)
    ensures
        r@ == series(reports@, *l, m),
{
    let mut out: Vec<(i64, usize)> = Vec::new();
    let mut i: usize = 0;
    while i < reports.len()
        invariant
            0 <= i <= reports@.len(),
            out@ == series(reports@.take(i as int), *l, m),
        decreases reports.len() - i,
    {
        let report = &reports[i];
        proof {
            assert(reports@.take(i + 1).drop_last() =~= reports@.take(i as int));
            assert(reports@.take(i + 1).last() == reports@[i as int]);
        }
        match language_value(&report.stats, l, m) {
            Some(v) => out.push((report.commit_date, v)),
            None => {},
        }
        i = i + 1;
    }
    assert(reports@.take(i as int) =~= reports@);
    out
}

} // verus!
