//! Trusted boundary around the HTML engine.
//!
//! A parsed document is opaque here: everything the extraction logic reads
//! from it — the text of the nodes a selector matches, and their attribute
//! values — enters through the wrappers below, whose contracts speak of the
//! uninterpreted functions `doc_texts`, `doc_attrs` and `selector_ok`.

use vstd::prelude::*;

verus! {

#[verifier::external_type_specification]
#[verifier::external_body]
pub struct ExHtml(scraper::Html);

/// Whether a CSS selector string compiles. `scraper::Selector::parse` is a
/// deterministic function of the selector text alone.
pub uninterp spec fn selector_ok(selector: Seq<char>) -> bool;

/// The text content of each node of `doc` matched by `selector`, in document
/// order: for each matched node, the concatenation of the text of its text
/// descendants.
pub uninterp spec fn doc_texts(doc: scraper::Html, selector: Seq<char>) -> Seq<Seq<char>>;

/// The value of attribute `attr` on each node of `doc` matched by `selector`,
/// in document order; `None` where the node lacks the attribute.
pub uninterp spec fn doc_attrs(doc: scraper::Html, selector: Seq<char>, attr: Seq<char>) -> Seq<
    Option<Seq<char>>,
>;

/// `doc_texts` over the document parsed from `html`: parsing, selection and
/// text collection are all deterministic functions of the input strings, so
/// the texts a selector matches on the parse of a given text are fixed by
/// that text and the selector alone.
pub uninterp spec fn page_texts(html: Seq<char>, selector: Seq<char>) -> Seq<Seq<char>>;

/// `doc_attrs` over the document parsed from `html`, fixed by the input
/// strings alone, as `page_texts` is.
pub uninterp spec fn page_attrs(html: Seq<char>, selector: Seq<char>, attr: Seq<char>) -> Seq<
    Option<Seq<char>>,
>;

/// What `str::trim` returns: the input without leading and trailing
/// whitespace, a function of the characters alone.
pub uninterp spec fn trim_of(s: Seq<char>) -> Seq<char>;

pub open spec fn opt_str_view(o: Option<String>) -> Option<Seq<char>> {
    match o {
        Some(s) => Some(s@),
        None => None,
    }
}

/// Relies on `scraper::Html::parse_document`: parsing does not fail hard, so
/// every string yields a document, and the parse is a deterministic function
/// of the input text. What any selector then matches on the result is
/// therefore fixed by the text alone, which ties `doc_texts` and `doc_attrs`
/// on the returned document to `page_texts` and `page_attrs` on the input.
#[verifier::external_body]
pub(crate) fn parse_document(html: &str) -> (d: scraper::Html)
    ensures
        forall|selector: Seq<char>| #[trigger]
            doc_texts(d, selector) == page_texts(html@, selector),
        forall|selector: Seq<char>, attr: Seq<char>| #[trigger]
            doc_attrs(d, selector, attr) == page_attrs(html@, selector, attr),
{
    scraper::Html::parse_document(html)
}

/// Relies on `scraper::Selector::parse`: whether a selector string compiles
/// depends on that string alone.
#[verifier::external_body]
pub(crate) fn selector_compiles(selector: &str) -> (r: bool)
    ensures
        r == selector_ok(selector@),
{
    scraper::Selector::parse(selector).is_ok()
}

/// Relies on `scraper::Selector::parse`, `scraper::Html::select` and
/// `scraper::ElementRef::text`: `select` walks the tree in document order and
/// yields the nodes the compiled selector matches, and `text` yields the text
/// of a node's text descendants in order.
#[verifier::external_body]
pub(crate) fn select_texts(doc: &scraper::Html, selector: &str) -> (r: Option<Vec<String>>)
    ensures
        r is Some <==> selector_ok(selector@),
        r matches Some(texts) ==> texts@.map_values(|s: String| s@) == doc_texts(
            *doc,
            selector@,
        ),
{
    match scraper::Selector::parse(selector) {
        Ok(sel) => Some(doc.select(&sel).map(|node| node.text().collect::<String>()).collect()),
        Err(_) => None,
    }
}

/// Relies on `scraper::Selector::parse`, `scraper::Html::select` and
/// `scraper::ElementRef::attr`: `select` walks the tree in document order and
/// yields the nodes the compiled selector matches, and `attr` returns the
/// named attribute's value, or `None` where the node lacks it.
#[verifier::external_body]
pub(crate) fn select_attrs(doc: &scraper::Html, selector: &str, attr: &str) -> (r: Option<
    Vec<Option<String>>,
>)
    ensures
        r is Some <==> selector_ok(selector@),
        r matches Some(attrs) ==> attrs@.map_values(|o: Option<String>| opt_str_view(o))
            == doc_attrs(*doc, selector@, attr@),
{
    match scraper::Selector::parse(selector) {
        Ok(sel) => Some(doc.select(&sel).map(|node| node.attr(attr).map(String::from)).collect()),
        Err(_) => None,
    }
}

/// Relies on `str::trim`: the result depends on the characters alone.
#[verifier::external_body]
pub(crate) fn trim_text(s: &str) -> (r: String)
    ensures
        r@ == trim_of(s@),
{
    s.trim().to_string()
}

} // verus!
