//! Verified core of a television-airings listing tool.
//!
//! Given a list of series identifiers and, for each, the HTML of its
//! listing page (or the reason its fetch failed), the library locates the
//! episode entry on each page, extracts the four text fields that describe
//! the upcoming episode, and renders one display line per identifier,
//! stopping at the first failure.

pub mod aggregate;
pub mod episode;
pub mod extract;
pub mod laws;
pub mod query;
pub mod text;
