//! The structural query over a parsed listing page.
//!
//! The document is parsed and queried by kuchiki; the one trusted wrapper
//! below returns, for every element matching the selector, the text of its
//! element children. Everything downstream of that call is verified.

use kuchiki::iter::NodeIterator;
use kuchiki::traits::TendrilSink;
use vstd::prelude::*;

verus! {

/// The fixed structural query: list items inside the episode-list
/// container that do not carry the `old` marker class.
pub open spec fn selector_spec() -> Seq<char> {
    "#episode-list li:not(.old)"@
}

/// The selector text, whose view is [`selector_spec`].
pub fn selector() -> (r: &'static str)
    ensures
        r@ == selector_spec(),
{
    "#episode-list li:not(.old)"
}

/// Whether a page's text is within the parser's size limit. The parser's
/// backing buffers (tendril) hold lengths in 32 bits and panic when a
/// text is copied or grown past them; a character encodes to at most four
/// UTF-8 bytes, so a page of fewer than 2^29 characters stays below 2^31
/// bytes, within those buffers — a machine limit of the HTML library, not
/// a rule of the page format.
pub open spec fn page_len_ok(html: Seq<char>) -> bool {
    html.len() < 0x2000_0000
}

/// Whether `html` is within the parser's size limit, so that the page may
/// be handed to the query functions.
pub fn page_within_limit(html: &str) -> (r: bool)
    ensures
        r == page_len_ok(html@),
{
    html.unicode_len() < 0x2000_0000
}

/// For each element of the document parsed from `html` that matches
/// `selector`, in document order: the full text contents of each of its
/// element children, in order. Empty when nothing matches or the selector
/// does not compile. A function of the two arguments alone.
pub uninterp spec fn query_texts(html: Seq<char>, selector: Seq<char>) -> Seq<Seq<Seq<char>>>;

/// Relies on kuchiki: `parse_html` (html5ever's deterministic HTML
/// parsing), `NodeRef::select` (matching elements in document order),
/// `NodeRef::children` filtered by `elements`, and `text_contents` (the
/// concatenated text of all descendant text nodes). The collected texts
/// are named [`query_texts`]. The length bound keeps out inputs on which
/// tendril's 32-bit buffers panic.
#[verifier::external_body]
fn select_child_texts(html: &str, selector: &str) -> (r: Vec<Vec<String>>)
    requires
        page_len_ok(html@),
    ensures
        r.deep_view() == query_texts(html@, selector@),
{
    let document = kuchiki::parse_html().one(html);
    let mut nodes: Vec<Vec<String>> = Vec::new();
    if let Ok(found) = document.select(selector) {
        for matched in found {
            let mut texts: Vec<String> = Vec::new();
            for child in matched.as_node().children().elements() {
                texts.push(child.text_contents());
            }
            nodes.push(texts);
        }
    }
    nodes
}

/// The texts of the element children of every node matching the fixed
/// structural query on `html`, in document order.
pub fn query_page(html: &str) -> (r: Vec<Vec<String>>)
    requires
        page_len_ok(html@),
    ensures
        r.deep_view() == query_texts(html@, selector_spec()),
{
    select_child_texts(html, selector())
}

} // verus!
