//! The episode record and the two diagnostics-bearing field types.
//!
//! An [`Episode`] holds, verbatim, the text of the first four element
//! children of the matched node: series label, episode number, title and
//! countdown, in that fixed order. Nothing is trimmed at construction;
//! trimming happens only when the display line is rendered.

use crate::text::trim_spec;
use crate::text::trim_str;
use vstd::prelude::*;

verus! {

/// One of the four required fields of an episode record, in the fixed
/// document order in which the matched node must supply them.
#[derive(Clone, Copy, PartialEq, Eq, Structural, Debug)]
pub enum Field {
    Series,
    Number,
    Title,
    Countdown,
}

/// The field that position `n` (counting from zero) of the matched node's
/// element children supplies; for `n` of three or more, the fourth field.
pub open spec fn field_at(n: int) -> Field {
    if n == 0 {
        Field::Series
    } else if n == 1 {
        Field::Number
    } else if n == 2 {
        Field::Title
    } else {
        Field::Countdown
    }
}

impl Field {
    /// The field's name as diagnostics spell it.
    pub open spec fn spec_name(self) -> Seq<char> {
        match self {
            Field::Series => "series"@,
            Field::Number => "number"@,
            Field::Title => "title"@,
            Field::Countdown => "countdown"@,
        }
    }

    /// The field's name as diagnostics spell it.
    pub fn name(&self) -> (r: &'static str)
        ensures
            r@ == self.spec_name(),
    {
        match self {
            Field::Series => "series",
            Field::Number => "number",
            Field::Title => "title",
            Field::Countdown => "countdown",
        }
    }
}

/// Failure of extraction: the matched node had no element child at the
/// position that should have supplied `field`.
#[derive(Clone, Copy, PartialEq, Eq, Structural, Debug)]
pub struct DataNotFoundError {
    pub field: Field,
}

/// The diagnostic text of a missing-field failure.
pub open spec fn missing_data_message_spec(field: Field) -> Seq<char> {
    "Missing data: "@ + field.spec_name()
}

impl DataNotFoundError {
    /// The diagnostic text, naming the missing field.
    pub fn message(&self) -> (r: String)
        ensures
            r@ == missing_data_message_spec(self.field),
    {
        let mut s = String::from_str("Missing data: ");
        s.append(self.field.name());
        s
    }
}

/// The upcoming-episode record: the raw text of the first four element
/// children of the matched node, untrimmed and unvalidated.
#[derive(Clone, Debug, PartialEq, Eq)]
pub struct Episode {
    pub series: String,
    pub number: String,
    pub title: String,
    pub countdown: String,
}

/// Mathematical view of an [`Episode`]: its four character sequences.
pub struct EpisodeView {
    pub series: Seq<char>,
    pub number: Seq<char>,
    pub title: Seq<char>,
    pub countdown: Seq<char>,
}

impl View for Episode {
    type V = EpisodeView;

    open spec fn view(&self) -> EpisodeView {
        EpisodeView {
            series: self.series@,
            number: self.number@,
            title: self.title@,
            countdown: self.countdown@,
        }
    }
}

/// The display line of an episode: each field trimmed of surrounding
/// whitespace only, laid out as `<series> <number>: "<title>" (<countdown>)`.
pub open spec fn episode_line_spec(e: EpisodeView) -> Seq<char> {
    trim_spec(e.series) + " "@ + trim_spec(e.number) + ": \""@ + trim_spec(e.title) + "\" ("@
        + trim_spec(e.countdown) + ")"@
}

impl Episode {
    /// Render the display line for this episode.
    pub fn display_line(&self) -> (r: String)
        ensures
            r@ == episode_line_spec(self@),
    {
        let mut s = trim_str(self.series.as_str());
        s.append(" ");
        let number = trim_str(self.number.as_str());
        s.append(number.as_str());
        s.append(": \"");
        let title = trim_str(self.title.as_str());
        s.append(title.as_str());
        s.append("\" (");
        let countdown = trim_str(self.countdown.as_str());
        s.append(countdown.as_str());
        s.append(")");
        assert(s@ =~= episode_line_spec(self@));
        s
    }
}

} // verus!
