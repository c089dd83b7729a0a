//! Driving the per-page pipeline over an ordered list of identifiers.
//!
//! A run is a short-circuiting sequential fold: one line per identifier,
//! in input order, or the first fetch or extraction failure. A failed run
//! yields no lines at all, only the error.

use crate::episode::DataNotFoundError;
use crate::episode::Field;
use crate::episode::episode_line_spec;
use crate::extract::find_episode;
use crate::extract::page_spec;
use crate::query::page_len_ok;
use vstd::prelude::*;

verus! {

/// The line owed when the structural query matched nothing for `series`:
/// absence of an episode is a normal outcome, not an error.
pub open spec fn no_episode_line_spec(series: Seq<char>) -> Seq<char> {
    series + ": no episode scheduled to air"@
}

/// The line owed for one fetched page, or the field whose absence failed
/// its extraction.
pub open spec fn line_spec(series: Seq<char>, html: Seq<char>) -> Result<Seq<char>, Field> {
    match page_spec(html) {
        Ok(Some(e)) => Ok(episode_line_spec(e)),
        Ok(None) => Ok(no_episode_line_spec(series)),
        Err(f) => Err(f),
    }
}

/// Process one fetched page: the episode's display line, the no-episode
/// line when nothing matched, or the missing-field failure.
pub fn airing_line(series: &str, html: &str) -> (r: Result<String, DataNotFoundError>)
    requires
        page_len_ok(html@),
    ensures
        (match r {
            Ok(line) => line_spec(series@, html@) == Ok::<Seq<char>, Field>(line@),
            Err(e) => line_spec(series@, html@) == Err::<Seq<char>, Field>(e.field),
        }),
{
    match find_episode(html) {
        Err(e) => Err(e),
        Ok(Some(episode)) => Ok(episode.display_line()),
        Ok(None) => {
            let mut s = String::from_str(series);
            s.append(": no episode scheduled to air");
            Ok(s)
        },
    }
}

/// One series identifier together with the outcome of fetching its page:
/// the page text, or the description of the transport failure.
#[derive(Debug, PartialEq, Eq)]
pub struct SeriesFetch {
    pub series: String,
    pub page: Result<String, String>,
}

/// Mathematical view of a [`SeriesFetch`].
pub struct SeriesFetchView {
    pub series: Seq<char>,
    pub page: Result<Seq<char>, Seq<char>>,
}

impl View for SeriesFetch {
    type V = SeriesFetchView;

    open spec fn view(&self) -> SeriesFetchView {
        SeriesFetchView {
            series: self.series@,
            page: match self.page {
                Ok(ref html) => Ok(html@),
                Err(ref cause) => Err(cause@),
            },
        }
    }
}

/// The error that aborts a run, carrying the failing series, the failing
/// stage and its cause.
#[derive(Clone, Debug, PartialEq, Eq)]
pub enum AiringError {
    /// The page could not be fetched; `cause` is the transport failure.
    Fetch { series: String, cause: String },
    /// The page's matched node lacked a required field.
    DataNotFound { series: String, error: DataNotFoundError },
}

/// Mathematical view of an [`AiringError`].
pub enum AiringErrorView {
    Fetch { series: Seq<char>, cause: Seq<char> },
    DataNotFound { series: Seq<char>, field: Field },
}

impl View for AiringError {
    type V = AiringErrorView;

    open spec fn view(&self) -> AiringErrorView {
        match self {
            AiringError::Fetch { series, cause } => AiringErrorView::Fetch {
                series: series@,
                cause: cause@,
            },
            AiringError::DataNotFound { series, error } => AiringErrorView::DataNotFound {
                series: series@,
                field: error.field,
            },
        }
    }
}

/// The diagnostic text of a run's error, naming the series, the failing
/// stage and the cause.
pub open spec fn error_message_spec(e: AiringErrorView) -> Seq<char> {
    match e {
        AiringErrorView::Fetch { series, cause } => "fetch failed for "@ + series + ": "@ + cause,
        AiringErrorView::DataNotFound { series, field } => "extraction failed for "@ + series
            + ": Missing data: "@ + field.spec_name(),
    }
}

impl AiringError {
    /// The diagnostic text, naming the series, stage and cause.
    pub fn message(&self) -> (r: String)
        ensures
            r@ == error_message_spec(self@),
    {
        match self {
            AiringError::Fetch { series, cause } => {
                let mut s = String::from_str("fetch failed for ");
                s.append(series.as_str());
                s.append(": ");
                s.append(cause.as_str());
                assert(s@ =~= error_message_spec(self@));
                s
            },
            AiringError::DataNotFound { series, error } => {
                let mut s = String::from_str("extraction failed for ");
                s.append(series.as_str());
                s.append(": Missing data: ");
                s.append(error.field.name());
                assert(s@ =~= error_message_spec(self@));
                s
            },
        }
    }
}

/// The fetched page of `f`, if there is one, is within the parser's size
/// limit; a failed fetch carries no page to bound.
pub open spec fn entry_len_ok(f: SeriesFetchView) -> bool {
    match f.page {
        Ok(html) => page_len_ok(html),
        Err(_) => true,
    }
}

/// What one entry of a run contributes: its line, or the error that
/// aborts the run.
pub open spec fn step_spec(f: SeriesFetchView) -> Result<Seq<char>, AiringErrorView> {
    match f.page {
        Err(cause) => Err(AiringErrorView::Fetch { series: f.series, cause }),
        Ok(html) => match line_spec(f.series, html) {
            Ok(line) => Ok(line),
            Err(field) => Err(AiringErrorView::DataNotFound { series: f.series, field }),
        },
    }
}

/// A whole run as a short-circuiting fold over its entries, in order: the
/// lines of all entries when every step succeeds, else the first error.
pub open spec fn airings_spec(batch: Seq<SeriesFetchView>) -> Result<
    Seq<Seq<char>>,
    AiringErrorView,
>
    decreases batch.len(),
{
    if batch.len() == 0 {
        Ok(Seq::empty())
    } else {
        match step_spec(batch.first()) {
            Err(e) => Err(e),
            Ok(line) => match airings_spec(batch.drop_first()) {
                Err(e) => Err(e),
                Ok(rest) => Ok(seq![line] + rest),
            },
        }
    }
}

/// The views of a run's entries.
pub open spec fn batch_view(batch: Seq<SeriesFetch>) -> Seq<SeriesFetchView> {
    batch.map_values(|f: SeriesFetch| f@)
}

/// Produce the display lines for a whole run, one per entry and in entry
/// order, stopping at the first fetch or extraction failure; a failed run
/// returns only that first error and no lines.
pub fn get_airings(batch: &Vec<SeriesFetch>) -> (r: Result<Vec<String>, AiringError>)
    requires
        forall|i: int|
            0 <= i < batch@.len() ==> entry_len_ok(#[trigger] batch_view(batch@)[i]),
    ensures
        (match r {
            Ok(lines) => airings_spec(batch_view(batch@)) == Ok::<
                Seq<Seq<char>>,
                AiringErrorView,
            >(lines.deep_view()),
            Err(e) => airings_spec(batch_view(batch@)) == Err::<Seq<Seq<char>>, AiringErrorView>(
                e@,
            ),
        }),
{
    let ghost bv = batch_view(batch@);
    let mut lines: Vec<String> = Vec::new();
    let mut idx: usize = 0;
    proof {
        assert(bv.skip(0) =~= bv);
        assert(lines.deep_view() =~= Seq::<Seq<char>>::empty());
        if airings_spec(bv) is Ok {
            assert(lines.deep_view() + airings_spec(bv)->Ok_0 =~= airings_spec(bv)->Ok_0);
        }
    }
    while idx < batch.len()
        invariant
            idx <= batch.len(),
            bv == batch_view(batch@),
            bv.len() == batch@.len(),
            forall|i: int| 0 <= i < bv.len() ==> entry_len_ok(#[trigger] bv[i]),
            airings_spec(bv) == (match airings_spec(bv.skip(idx as int)) {
                Ok(rest) => Ok::<Seq<Seq<char>>, AiringErrorView>(lines.deep_view() + rest),
                Err(e) => Err::<Seq<Seq<char>>, AiringErrorView>(e),
            }),
        decreases batch.len() - idx,
    {
        let ghost suffix = bv.skip(idx as int);
        let entry = &batch[idx];
        proof {
            assert(suffix.first() == bv[idx as int]);
            assert(suffix.drop_first() =~= bv.skip(idx as int + 1));
        }
        match &entry.page {
            Err(cause) => {
                return Err(AiringError::Fetch { series: entry.series.clone(), cause: cause.clone() });
            },
            Ok(html) => {
                match airing_line(entry.series.as_str(), html.as_str()) {
                    Err(e) => {
                        return Err(
                            AiringError::DataNotFound { series: entry.series.clone(), error: e },
                        );
                    },
                    Ok(line) => {
                        let ghost prefix = lines.deep_view();
                        lines.push(line);
                        proof {
                            assert(lines.deep_view() =~= prefix.push(line@));
                            if airings_spec(bv.skip(idx as int + 1)) is Ok {
                                let rest = airings_spec(bv.skip(idx as int + 1))->Ok_0;
                                assert(prefix + (seq![line@] + rest) =~= prefix.push(line@) + rest);
                            }
                        }
                    },
                }
            },
        }
        idx = idx + 1;
    }
    proof {
        assert(bv.skip(idx as int) =~= Seq::<SeriesFetchView>::empty());
        assert(lines.deep_view() + Seq::<Seq<char>>::empty() =~= lines.deep_view());
    }
    Ok(lines)
}

} // verus!
