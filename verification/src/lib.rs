//! Scraping of a municipal event-listing site into structured records.
//!
//! Given the HTML of the listing page, `event::scrape_listing` discovers the
//! links to the individual event pages; given the HTML of one event page,
//! `event::scrape_event_page` reduces it, selector by selector, to an
//! `event::Event` record. The reduction rules live in `extract`; everything
//! read from a parsed document crosses the trusted boundary in `dom`.
//! Fetching the pages is the caller's business: this crate works on plain
//! strings.

pub mod dom;
pub mod event;
pub mod extract;

use vstd::prelude::*;

verus! {

/// Builds an absolute permalink by concatenating a base URL and a relative
/// path, with no normalization of any kind.
pub fn build_permalink(base_url: &str, rel_permalink: &str) -> (r: String)
    ensures
        r@ == base_url@ + rel_permalink@,
{
    let mut permalink = String::from_str(base_url);
    permalink.append(rel_permalink);
    permalink
}

} // verus!
