//! Field extraction: reducing the node set matched by a selector to a single
//! value.
//!
//! Three reduction modes exist. Single-text takes the trimmed text of the
//! first matched node; joined-text concatenates the texts of every matched
//! node in document order, inserts nothing between the fragments, and trims
//! the ends of the whole; attribute mode reads a named attribute off the
//! first matched node. A selector that matches
//! nothing yields an empty value in the text modes and `None` in attribute
//! mode; a matched node that lacks the requested attribute is a
//! distinguishable error, never a silent empty string.

use vstd::prelude::*;

use crate::dom::doc_attrs;
use crate::dom::doc_texts;
use crate::dom::opt_str_view;
use crate::dom::select_attrs;
use crate::dom::select_texts;
use crate::dom::selector_ok;
use crate::dom::trim_of;
use crate::dom::trim_text;

verus! {

/// Why a field extraction failed.
#[derive(Debug, Clone, Copy, PartialEq, Eq, Structural)]
pub enum ExtractError {
    /// The selector string does not compile: a programming error, reported
    /// the first time the selector is used.
    InvalidSelector,
    /// Attribute mode matched a node, but the node lacks the requested
    /// attribute.
    MissingAttribute,
}

/// Single-text reduction: the trimmed text of the first matched node, or
/// empty when nothing matched.
pub open spec fn single_text(texts: Seq<Seq<char>>) -> Seq<char> {
    if texts.len() == 0 {
        Seq::<char>::empty()
    } else {
        trim_of(texts[0])
    }
}

/// The texts of all matched nodes, concatenated in document order with no
/// inserted separator.
pub open spec fn joined_raw(texts: Seq<Seq<char>>) -> Seq<char>
    decreases texts.len(),
{
    if texts.len() == 0 {
        Seq::<char>::empty()
    } else {
        joined_raw(texts.drop_last()) + texts.last()
    }
}

/// Joined-text reduction: the concatenation of the matched nodes' texts in
/// document order, trimmed at the ends, or empty when nothing matched.
/// Nothing is inserted between fragments, and whitespace at the seams is kept
/// as it stands in the source text: only the ends of the whole are trimmed.
pub open spec fn joined_text(texts: Seq<Seq<char>>) -> Seq<char> {
    if texts.len() == 0 {
        Seq::<char>::empty()
    } else {
        trim_of(joined_raw(texts))
    }
}

/// Attribute reduction: the attribute value of the first matched node,
/// untrimmed; `None` when nothing matched; an error when the first matched
/// node lacks the attribute.
pub open spec fn attr_value(attrs: Seq<Option<Seq<char>>>) -> Result<
    Option<Seq<char>>,
    ExtractError,
> {
    if attrs.len() == 0 {
        Ok(None)
    } else {
        match attrs[0] {
            Some(v) => Ok(Some(v)),
            None => Err(ExtractError::MissingAttribute),
        }
    }
}

/// The view of an attribute-mode result.
pub open spec fn attr_result_view(r: Result<Option<String>, ExtractError>) -> Result<
    Option<Seq<char>>,
    ExtractError,
> {
    match r {
        Ok(o) => Ok(opt_str_view(o)),
        Err(e) => Err(e),
    }
}

/// Extracts in single-text mode: the trimmed text of the first node matching
/// `selector`, or the empty string when nothing matches.
pub fn extract_single_text(doc: &scraper::Html, selector: &str) -> (r: Result<
    String,
    ExtractError,
>)
    ensures
        selector_ok(selector@) ==> (r matches Ok(t) && t@ == single_text(
            doc_texts(*doc, selector@),
        )),
        !selector_ok(selector@) ==> r == Err::<String, ExtractError>(
            ExtractError::InvalidSelector,
        ),
{
    match select_texts(doc, selector) {
        None => Err(ExtractError::InvalidSelector),
        Some(texts) => {
            if texts.len() == 0 {
                assert(doc_texts(*doc, selector@).len() == 0);
                Ok(String::new())
            } else {
                assert(doc_texts(*doc, selector@)[0] == texts@[0]@);
                Ok(trim_text(texts[0].as_str()))
            }
        },
    }
}

/// Extracts in joined-text mode: the texts of every node matching `selector`,
/// concatenated in document order with no inserted separator and trimmed at
/// the ends, or the empty string when nothing matches.
pub fn extract_joined_text(doc: &scraper::Html, selector: &str) -> (r: Result<
    String,
    ExtractError,
>)
    ensures
        selector_ok(selector@) ==> (r matches Ok(t) && t@ == joined_text(
            doc_texts(*doc, selector@),
        )),
        !selector_ok(selector@) ==> r == Err::<String, ExtractError>(
            ExtractError::InvalidSelector,
        ),
{
    match select_texts(doc, selector) {
        None => Err(ExtractError::InvalidSelector),
        Some(texts) => {
            let ghost model = doc_texts(*doc, selector@);
            if texts.len() == 0 {
                assert(model.len() == 0);
                return Ok(String::new());
            }
            let mut joined = String::new();
            let mut i: usize = 0;
            while i < texts.len()
                invariant
                    i <= texts.len(),
                    texts@.map_values(|s: String| s@) == model,
                    joined@ == joined_raw(model.take(i as int)),
                decreases texts.len() - i,
            {
                proof {
                    assert(model[i as int] == texts@[i as int]@);
                    lemma_joined_raw_step(model, i as int);
                }
                joined.append(texts[i].as_str());
                i = i + 1;
            }
            proof {
                assert(model.take(texts@.len() as int) =~= model);
            }
            Ok(trim_text(joined.as_str()))
        },
    }
}

/// Appending one more node's text to a concatenated prefix extends the
/// concatenation by that node's text.
proof fn lemma_joined_raw_step(texts: Seq<Seq<char>>, i: int)
    requires
        0 <= i < texts.len(),
    ensures
        joined_raw(texts.take(i + 1)) == joined_raw(texts.take(i)) + texts[i],
{
    assert(texts.take(i + 1).drop_last() =~= texts.take(i));
    assert(texts.take(i + 1).last() == texts[i]);
}

/// Joined-text reduction over no matches is empty; over one match it is that
/// node's trimmed text; over two matches it is the two texts concatenated
/// with no inserted separator, trimmed only at the ends of the whole.
pub proof fn lemma_joined_text_cases(texts: Seq<Seq<char>>)
    ensures
        texts.len() == 0 ==> joined_text(texts) == Seq::<char>::empty(),
        texts.len() == 1 ==> joined_text(texts) == trim_of(texts[0]),
        texts.len() == 2 ==> joined_text(texts) == trim_of(texts[0] + texts[1]),
{
    if texts.len() == 1 {
        assert(joined_raw(texts.drop_last()) == Seq::<char>::empty());
        assert(texts.last() == texts[0]);
        assert(Seq::<char>::empty() + texts[0] =~= texts[0]);
        assert(joined_raw(texts) == texts[0]);
    }
    if texts.len() == 2 {
        let first = texts.drop_last();
        assert(first.len() == 1);
        assert(joined_raw(first.drop_last()) == Seq::<char>::empty());
        assert(first.last() == texts[0]);
        assert(Seq::<char>::empty() + texts[0] =~= texts[0]);
        assert(joined_raw(first) == texts[0]);
        assert(texts.last() == texts[1]);
        assert(joined_raw(texts) == texts[0] + texts[1]);
    }
}

/// Single-text reduction reads only the first matched node: two match sets
/// that agree on their first node reduce to the same value, however many
/// further nodes match.
pub proof fn lemma_single_text_first_only(a: Seq<Seq<char>>, b: Seq<Seq<char>>)
    requires
        a.len() > 0,
        b.len() > 0,
        a[0] == b[0],
    ensures
        single_text(a) == single_text(b),
{
}

/// Attribute mode signals a missing attribute distinguishably: the reduction
/// yields the missing-attribute error exactly when a node matched and that
/// node lacks the attribute — never a silently empty value.
pub proof fn lemma_missing_attribute_distinguished(attrs: Seq<Option<Seq<char>>>)
    ensures
        attr_value(attrs) == Err::<Option<Seq<char>>, ExtractError>(ExtractError::MissingAttribute)
            <==> (attrs.len() > 0 && attrs[0] is None),
{
}

/// Extracts in attribute mode: the value of `attr` on the first node matching
/// `selector`. Returns `Ok(None)` when nothing matches, and a distinguishable
/// `MissingAttribute` error when the first matched node lacks the attribute.
pub fn extract_attr(doc: &scraper::Html, selector: &str, attr: &str) -> (r: Result<
    Option<String>,
    ExtractError,
>)
    ensures
        selector_ok(selector@) ==> attr_result_view(r) == attr_value(
            doc_attrs(*doc, selector@, attr@),
        ),
        !selector_ok(selector@) ==> r == Err::<Option<String>, ExtractError>(
            ExtractError::InvalidSelector,
        ),
{
    match select_attrs(doc, selector, attr) {
        None => Err(ExtractError::InvalidSelector),
        Some(attrs) => {
            if attrs.len() == 0 {
                assert(doc_attrs(*doc, selector@, attr@).len() == 0);
                Ok(None)
            } else {
                assert(doc_attrs(*doc, selector@, attr@)[0] == opt_str_view(attrs@[0]));
                match &attrs[0] {
                    Some(v) => Ok(Some(v.clone())),
                    None => Err(ExtractError::MissingAttribute),
                }
            }
        },
    }
}

} // verus!
