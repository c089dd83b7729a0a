//! Locating the matched node on a page and extracting the episode record.
//!
//! A page's outcome is three-way: no node matched the structural query (a
//! normal outcome, not an error), a fully populated [`Episode`] taken from
//! the **last** matching node in document order, or a missing-field
//! failure naming the first absent of the four required positions.

use crate::episode::DataNotFoundError;
use crate::episode::Episode;
use crate::episode::EpisodeView;
use crate::episode::Field;
use crate::episode::field_at;
use crate::query::page_len_ok;
use crate::query::query_page;
use crate::query::query_texts;
use crate::query::selector_spec;
use vstd::prelude::*;

verus! {

/// What one matched node's child texts determine: the episode record made
/// of the first four texts, or, when fewer are present, the first absent
/// field.
pub open spec fn node_outcome(node: Seq<Seq<char>>) -> Result<EpisodeView, Field> {
    if node.len() >= 4 {
        Ok(
            EpisodeView {
                series: node[0],
                number: node[1],
                title: node[2],
                countdown: node[3],
            },
        )
    } else {
        Err(field_at(node.len() as int))
    }
}

/// What a whole result set determines: no episode when it is empty, else
/// the outcome of its last node — the deliberate tie-break, since later
/// entries in the underlying list are the next to air.
pub open spec fn nodes_outcome(nodes: Seq<Seq<Seq<char>>>) -> Result<
    Option<EpisodeView>,
    Field,
> {
    if nodes.len() == 0 {
        Ok(None)
    } else {
        match node_outcome(nodes.last()) {
            Ok(e) => Ok(Some(e)),
            Err(f) => Err(f),
        }
    }
}

/// The three-way outcome of a page: the result set of the fixed structural
/// query on `html`, folded by [`nodes_outcome`].
pub open spec fn page_spec(html: Seq<char>) -> Result<Option<EpisodeView>, Field> {
    nodes_outcome(query_texts(html, selector_spec()))
}

/// An extraction result, viewed mathematically.
pub open spec fn extraction_view(r: Result<Option<Episode>, DataNotFoundError>) -> Result<
    Option<EpisodeView>,
    Field,
> {
    match r {
        Ok(Some(e)) => Ok(Some(e@)),
        Ok(None) => Ok(None),
        Err(d) => Err(d.field),
    }
}

/// From the child texts of the matched nodes, select the last node and
/// pull out the four fields, failing on the first absent one.
pub fn extract_episode(nodes: &Vec<Vec<String>>) -> (r: Result<
    Option<Episode>,
    DataNotFoundError,
>)
    ensures
        extraction_view(r) == nodes_outcome(nodes.deep_view()),
{
    if nodes.len() == 0 {
        return Ok(None);
    }
    let node = &nodes[nodes.len() - 1];
    proof {
        assert(nodes.deep_view().last() == node.deep_view());
    }
    if node.len() == 0 {
        Err(DataNotFoundError { field: Field::Series })
    } else if node.len() == 1 {
        Err(DataNotFoundError { field: Field::Number })
    } else if node.len() == 2 {
        Err(DataNotFoundError { field: Field::Title })
    } else if node.len() == 3 {
        Err(DataNotFoundError { field: Field::Countdown })
    } else {
        let episode = Episode {
            series: node[0].clone(),
            number: node[1].clone(),
            title: node[2].clone(),
            countdown: node[3].clone(),
        };
        Ok(Some(episode))
    }
}

/// Parse a listing page and extract its upcoming-episode record: the
/// verified core of one page's processing.
pub fn find_episode(html: &str) -> (r: Result<Option<Episode>, DataNotFoundError>)
    requires
        page_len_ok(html@),
    ensures
        extraction_view(r) == page_spec(html@),
{
    let nodes = query_page(html);
    extract_episode(&nodes)
}

} // verus!
