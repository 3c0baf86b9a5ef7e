//! Event records and their assembly from a parsed page.
//!
//! A record is built once per discovered event link and is immutable
//! thereafter. Selector strings are validated before any field is read:
//! a selector that does not compile is a programming error and is reported
//! as `InvalidSelector` up front, never silently. A selector that compiles
//! but matches nothing yields an empty field.

use vstd::prelude::*;

use crate::dom::doc_attrs;
use crate::dom::doc_texts;
use crate::dom::opt_str_view;
use crate::dom::page_attrs;
use crate::dom::page_texts;
use crate::dom::parse_document;
use crate::dom::select_attrs;
use crate::dom::selector_compiles;
use crate::dom::selector_ok;
use crate::extract::ExtractError;
use crate::extract::attr_value;
use crate::extract::extract_attr;
use crate::extract::extract_joined_text;
use crate::extract::extract_single_text;
use crate::extract::joined_text;
use crate::extract::single_text;

verus! {

/// One scraped event page, reduced to plain fields.
#[derive(Debug, Clone)]
pub struct Event {
    /// Root URL against which relative links were resolved.
    pub base_url: String,
    /// Relative path taken from the listing anchor's link attribute.
    pub rel_permalink: String,
    /// Absolute URL of the event page: `base_url` followed by
    /// `rel_permalink`, plain concatenation.
    pub permalink: String,
    /// Text of the page's primary heading.
    pub title: String,
    /// Text of the secondary heading.
    pub subtitle: String,
    /// Text of the heading inside the description block.
    pub description_title: String,
    /// Concatenated text of the paragraphs inside the description block.
    pub description: String,
    /// Text of the heading inside the location block.
    pub location: String,
    /// Absolute URL of the content image, or empty when the page has none.
    pub image: String,
}

/// The selector strings an event page is read with.
#[derive(Debug, Clone)]
pub struct SelectorSet {
    pub title: String,
    pub subtitle: String,
    pub description_title: String,
    pub description: String,
    pub location: String,
    /// Selector for the content image.
    pub image: String,
    /// Selector tried for the image when `image` matches nothing, for pages
    /// with an alternate markup shape.
    pub image_fallback: String,
}

/// All selectors of the set compile.
pub open spec fn event_selectors_ok(s: SelectorSet) -> bool {
    &&& selector_ok(s.title@)
    &&& selector_ok(s.subtitle@)
    &&& selector_ok(s.description_title@)
    &&& selector_ok(s.description@)
    &&& selector_ok(s.location@)
    &&& selector_ok(s.image@)
    &&& selector_ok(s.image_fallback@)
}

impl SelectorSet {
    /// Checks every selector of the set up front, so that a malformed
    /// selector is caught once at startup rather than once per page.
    pub fn validate(&self) -> (r: bool)
        ensures
            r == event_selectors_ok(*self),
    {
        selector_compiles(self.title.as_str()) && selector_compiles(self.subtitle.as_str())
            && selector_compiles(self.description_title.as_str()) && selector_compiles(
            self.description.as_str(),
        ) && selector_compiles(self.location.as_str()) && selector_compiles(self.image.as_str())
            && selector_compiles(self.image_fallback.as_str())
    }
}

/// The full scraping configuration: site constants and the selector sets for
/// the listing page and the event pages.
#[derive(Debug, Clone)]
pub struct Config {
    /// Root URL of the site.
    pub base_url: String,
    /// Path of the event-listing page, relative to `base_url`.
    pub listing_path: String,
    /// Selector matching the event-link anchors on the listing page.
    pub event_links: String,
    /// Selectors for the fields of one event page.
    pub selectors: SelectorSet,
}

impl Config {
    /// The site constants and selector set for the municipal event pages this
    /// scraper targets.
    pub fn municipal_defaults() -> (c: Config)
        ensures
            c.base_url@ == "https://www.comune.montopoli.pi.it"@,
            c.listing_path@ == "/home/vivere/eventi.html"@,
            c.event_links@ == ".eventi-elenco .cmp-list-card-img__body-title a"@,
            c.selectors.title@ == "h1"@,
            c.selectors.subtitle@ == "h1+ h4 "@,
            c.selectors.description_title@ == "#_event_estesa h4"@,
            c.selectors.description@ == "#_event_estesa  p"@,
            c.selectors.location@ == "#_event_luogo h5"@,
            c.selectors.image@ == ".col-lg-8 img"@,
            c.selectors.image_fallback@ == ".content-image"@,
    {
        Config {
            base_url: String::from_str("https://www.comune.montopoli.pi.it"),
            listing_path: String::from_str("/home/vivere/eventi.html"),
            event_links: String::from_str(".eventi-elenco .cmp-list-card-img__body-title a"),
            selectors: SelectorSet {
                title: String::from_str("h1"),
                subtitle: String::from_str("h1+ h4 "),
                description_title: String::from_str("#_event_estesa h4"),
                description: String::from_str("#_event_estesa  p"),
                location: String::from_str("#_event_luogo h5"),
                image: String::from_str(".col-lg-8 img"),
                image_fallback: String::from_str(".content-image"),
            },
        }
    }
}

/// Every matched anchor carries a value for the link attribute.
pub open spec fn all_links_present(attrs: Seq<Option<Seq<char>>>) -> bool {
    forall|i: int| 0 <= i < attrs.len() ==> attrs[i] is Some
}

/// The link values of the matched anchors, in document order.
pub open spec fn link_values(attrs: Seq<Option<Seq<char>>>) -> Seq<Seq<char>> {
    attrs.map_values(|o: Option<Seq<char>>| o->Some_0)
}

/// Extracts the event links from a listing page: the `href` value of every
/// node matching `selector`, in document order, one entry per matched node.
/// An anchor without an `href` is a distinguishable `MissingAttribute` error,
/// never a silent empty link.
pub fn extract_event_links(doc: &scraper::Html, selector: &str) -> (r: Result<
    Vec<String>,
    ExtractError,
>)
    ensures
        !selector_ok(selector@) ==> r == Err::<Vec<String>, ExtractError>(
            ExtractError::InvalidSelector,
        ),
        selector_ok(selector@) && all_links_present(doc_attrs(*doc, selector@, "href"@)) ==> (
        r matches Ok(links) && links@.map_values(|s: String| s@) == link_values(
            doc_attrs(*doc, selector@, "href"@),
        )),
        selector_ok(selector@) && !all_links_present(doc_attrs(*doc, selector@, "href"@)) ==> r
            == Err::<Vec<String>, ExtractError>(ExtractError::MissingAttribute),
{
    match select_attrs(doc, selector, "href") {
        None => Err(ExtractError::InvalidSelector),
        Some(attrs) => {
            let ghost model = doc_attrs(*doc, selector@, "href"@);
            let mut links: Vec<String> = Vec::new();
            let mut i: usize = 0;
            while i < attrs.len()
                invariant
                    i <= attrs.len(),
                    selector_ok(selector@),
                    model == doc_attrs(*doc, selector@, "href"@),
                    attrs@.map_values(|o: Option<String>| opt_str_view(o)) == model,
                    links@.len() == i,
                    forall|j: int|
                        0 <= j < i ==> model[j] is Some && links@[j]@ == model[j]->Some_0,
                decreases attrs.len() - i,
            {
                proof {
                    assert(model[i as int] == opt_str_view(attrs@[i as int]));
                }
                match &attrs[i] {
                    Some(href) => {
                        links.push(href.clone());
                    },
                    None => {
                        assert(model[i as int] is None);
                        return Err(ExtractError::MissingAttribute);
                    },
                }
                i = i + 1;
            }
            assert(links@.map_values(|s: String| s@) =~= link_values(model));
            Ok(links)
        },
    }
}

/// A listing whose every matched anchor carries its link attribute yields
/// exactly one link per matched anchor, in document order.
pub proof fn lemma_one_link_per_anchor(attrs: Seq<Option<Seq<char>>>)
    requires
        all_links_present(attrs),
    ensures
        link_values(attrs).len() == attrs.len(),
        forall|i: int| 0 <= i < attrs.len() ==> link_values(attrs)[i] == attrs[i]->Some_0,
{
}

/// The image source chosen for a page: the primary selector's matches where
/// it matched anything, else the fallback selector's.
pub open spec fn image_source(
    primary: Seq<Option<Seq<char>>>,
    fallback: Seq<Option<Seq<char>>>,
) -> Result<Option<Seq<char>>, ExtractError> {
    if primary.len() > 0 {
        attr_value(primary)
    } else {
        attr_value(fallback)
    }
}

/// The image source of `page` under selector set `s`.
pub open spec fn image_src_of(page: scraper::Html, s: SelectorSet) -> Result<
    Option<Seq<char>>,
    ExtractError,
> {
    image_source(doc_attrs(page, s.image@, "src"@), doc_attrs(page, s.image_fallback@, "src"@))
}

/// The image field built from a chosen source: the base URL followed by the
/// source path, or empty when no image was found.
pub open spec fn image_url(base: Seq<char>, src: Option<Seq<char>>) -> Seq<char> {
    match src {
        Some(s) => base + s,
        None => Seq::<char>::empty(),
    }
}

/// The field-by-field statement of a fully assembled record.
pub open spec fn event_assembled(
    e: Event,
    base_url: Seq<char>,
    rel_permalink: Seq<char>,
    page: scraper::Html,
    s: SelectorSet,
) -> bool {
    &&& e.base_url@ == base_url
    &&& e.rel_permalink@ == rel_permalink
    &&& e.permalink@ == base_url + rel_permalink
    &&& e.title@ == single_text(doc_texts(page, s.title@))
    &&& e.subtitle@ == single_text(doc_texts(page, s.subtitle@))
    &&& e.description_title@ == single_text(doc_texts(page, s.description_title@))
    &&& e.description@ == joined_text(doc_texts(page, s.description@))
    &&& e.location@ == single_text(doc_texts(page, s.location@))
    &&& e.image@ == image_url(base_url, image_src_of(page, s)->Ok_0)
}

/// Assembles one event record from a parsed event page.
///
/// All selectors are validated first: a set with a malformed selector yields
/// `InvalidSelector` whether or not the other fields could have been read.
/// With valid selectors, the only failure left is a matched image node that
/// lacks its source attribute, reported as `MissingAttribute`.
pub fn assemble_event(
    base_url: &str,
    rel_permalink: &str,
    page: &scraper::Html,
    sels: &SelectorSet,
) -> (r: Result<Event, ExtractError>)
    ensures
        !event_selectors_ok(*sels) ==> r == Err::<Event, ExtractError>(
            ExtractError::InvalidSelector,
        ),
        event_selectors_ok(*sels) && image_src_of(*page, *sels) is Err ==> r == Err::<
            Event,
            ExtractError,
        >(ExtractError::MissingAttribute),
        event_selectors_ok(*sels) && image_src_of(*page, *sels) is Ok ==> (r matches Ok(e)
            && event_assembled(e, base_url@, rel_permalink@, *page, *sels)),
{
    if !sels.validate() {
        return Err(ExtractError::InvalidSelector);
    }
    let title = match extract_single_text(page, sels.title.as_str()) {
        Ok(t) => t,
        Err(e) => {
            return Err(e);
        },
    };
    let subtitle = match extract_single_text(page, sels.subtitle.as_str()) {
        Ok(t) => t,
        Err(e) => {
            return Err(e);
        },
    };
    let description_title = match extract_single_text(page, sels.description_title.as_str()) {
        Ok(t) => t,
        Err(e) => {
            return Err(e);
        },
    };
    let description = match extract_joined_text(page, sels.description.as_str()) {
        Ok(t) => t,
        Err(e) => {
            return Err(e);
        },
    };
    let location = match extract_single_text(page, sels.location.as_str()) {
        Ok(t) => t,
        Err(e) => {
            return Err(e);
        },
    };
    let image_src: Option<String> = match extract_attr(page, sels.image.as_str(), "src") {
        Err(e) => {
            return Err(e);
        },
        Ok(Some(src)) => Some(src),
        Ok(None) => match extract_attr(page, sels.image_fallback.as_str(), "src") {
            Err(e) => {
                return Err(e);
            },
            Ok(opt) => opt,
        },
    };
    let image = match image_src {
        Some(src) => crate::build_permalink(base_url, src.as_str()),
        None => String::new(),
    };
    Ok(
        Event {
            base_url: String::from_str(base_url),
            rel_permalink: String::from_str(rel_permalink),
            permalink: crate::build_permalink(base_url, rel_permalink),
            title,
            subtitle,
            description_title,
            description,
            location,
            image,
        },
    )
}

/// The image source of the page parsed from `html`, under selector set `s`:
/// `image_src_of` carried to the page-text level.
pub open spec fn page_image_src(html: Seq<char>, s: SelectorSet) -> Result<
    Option<Seq<char>>,
    ExtractError,
> {
    image_source(page_attrs(html, s.image@, "src"@), page_attrs(html, s.image_fallback@, "src"@))
}

/// `event_assembled`, stated over the page text instead of a parsed document:
/// every field of the record is fixed by the page text, the base URL, the
/// relative permalink and the selector set alone.
pub open spec fn page_event_assembled(
    e: Event,
    base_url: Seq<char>,
    rel_permalink: Seq<char>,
    html: Seq<char>,
    s: SelectorSet,
) -> bool {
    &&& e.base_url@ == base_url
    &&& e.rel_permalink@ == rel_permalink
    &&& e.permalink@ == base_url + rel_permalink
    &&& e.title@ == single_text(page_texts(html, s.title@))
    &&& e.subtitle@ == single_text(page_texts(html, s.subtitle@))
    &&& e.description_title@ == single_text(page_texts(html, s.description_title@))
    &&& e.description@ == joined_text(page_texts(html, s.description@))
    &&& e.location@ == single_text(page_texts(html, s.location@))
    &&& e.image@ == image_url(base_url, page_image_src(html, s)->Ok_0)
}

/// Parses the text of a fetched event page and assembles its record.
///
/// The parse is deterministic, so success is owed from the page text alone:
/// with a valid selector set, the record comes back — every field fixed over
/// the page text — unless a matched image node lacks its source attribute.
pub fn scrape_event_page(
    base_url: &str,
    rel_permalink: &str,
    page_html: &str,
    sels: &SelectorSet,
) -> (r: Result<Event, ExtractError>)
    ensures
        !event_selectors_ok(*sels) ==> r == Err::<Event, ExtractError>(
            ExtractError::InvalidSelector,
        ),
        event_selectors_ok(*sels) && page_image_src(page_html@, *sels) is Err ==> r == Err::<
            Event,
            ExtractError,
        >(ExtractError::MissingAttribute),
        event_selectors_ok(*sels) && page_image_src(page_html@, *sels) is Ok ==> (r matches Ok(e)
            && page_event_assembled(e, base_url@, rel_permalink@, page_html@, *sels)),
{
    let doc = parse_document(page_html);
    assemble_event(base_url, rel_permalink, &doc, sels)
}

/// Parses the text of a fetched listing page and extracts its event links.
///
/// As with `scrape_event_page`, success is owed from the listing text alone:
/// with a selector that compiles and every matched anchor carrying its link
/// attribute, the links come back, in document order.
pub fn scrape_listing(listing_html: &str, selector: &str) -> (r: Result<Vec<String>, ExtractError>)
    ensures
        !selector_ok(selector@) ==> r == Err::<Vec<String>, ExtractError>(
            ExtractError::InvalidSelector,
        ),
        selector_ok(selector@) && all_links_present(
            page_attrs(listing_html@, selector@, "href"@),
        ) ==> (r matches Ok(links) && links@.map_values(|s: String| s@) == link_values(
            page_attrs(listing_html@, selector@, "href"@),
        )),
        selector_ok(selector@) && !all_links_present(
            page_attrs(listing_html@, selector@, "href"@),
        ) ==> r == Err::<Vec<String>, ExtractError>(ExtractError::MissingAttribute),
{
    let doc = parse_document(listing_html);
    extract_event_links(&doc, selector)
}

/// End to end, at the page-text level: when every anchor matched on a listing
/// carries its link, and a record is assembled for the `i`-th discovered link
/// — as `scrape_listing` and `scrape_event_page` ensure — the record's
/// permalink is the base URL followed by that link, plain concatenation, and
/// its title is the single-text reduction of the title selector over the
/// event page's text.
pub proof fn lemma_end_to_end(
    e: Event,
    base_url: Seq<char>,
    listing_html: Seq<char>,
    link_selector: Seq<char>,
    page_html: Seq<char>,
    s: SelectorSet,
    i: int,
)
    requires
        all_links_present(page_attrs(listing_html, link_selector, "href"@)),
        0 <= i < page_attrs(listing_html, link_selector, "href"@).len(),
        page_event_assembled(
            e,
            base_url,
            link_values(page_attrs(listing_html, link_selector, "href"@))[i],
            page_html,
            s,
        ),
    ensures
        e.permalink@ == base_url + page_attrs(listing_html, link_selector, "href"@)[i]->Some_0,
        e.title@ == single_text(page_texts(page_html, s.title@)),
{
}

/// The outcome of one discovered event link: a record, or the reason the
/// item was skipped. One bad page never discards the rest of the batch.
#[derive(Debug, Clone)]
pub enum EventOutcome {
    /// The page was fetched and its record assembled.
    Scraped(Event),
    /// The page could not be fetched; carries the transport's description.
    FetchFailed(String),
    /// A field extraction failed on the fetched page.
    ExtractFailed(ExtractError),
}

/// How many outcomes of the batch carry an assembled record.
pub open spec fn scraped_count(outcomes: Seq<EventOutcome>) -> int
    decreases outcomes.len(),
{
    if outcomes.len() == 0 {
        0
    } else {
        scraped_count(outcomes.drop_last()) + if outcomes.last() is Scraped {
            1int
        } else {
            0int
        }
    }
}

/// Counts the assembled records in a batch summary.
pub fn count_scraped(outcomes: &Vec<EventOutcome>) -> (n: usize)
    ensures
        n == scraped_count(outcomes@),
{
    let mut n: usize = 0;
    let mut i: usize = 0;
    while i < outcomes.len()
        invariant
            i <= outcomes.len(),
            n <= i,
            n == scraped_count(outcomes@.take(i as int)),
        decreases outcomes.len() - i,
    {
        proof {
            assert(outcomes@.take(i + 1).drop_last() =~= outcomes@.take(i as int));
            assert(outcomes@.take(i + 1).last() == outcomes@[i as int]);
        }
        match &outcomes[i] {
            EventOutcome::Scraped(_) => {
                n = n + 1;
            },
            _ => {},
        }
        i = i + 1;
    }
    proof {
        assert(outcomes@.take(outcomes@.len() as int) =~= outcomes@);
    }
    n
}

} // verus!
