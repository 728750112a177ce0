//! Reading element texts out of a work page's markup.

use vstd::prelude::*;

verus! {

/// The character sequences of a list of strings.
pub open spec fn views(v: Seq<String>) -> Seq<Seq<char>> {
    v.map_values(|s: String| s@)
}

/// Name for what scraper gives for an HTML page and a CSS selector: the text
/// of each element that the selector matches, in the order scraper's `select`
/// yields them, each the concatenation of the element's text nodes.
pub uninterp spec fn element_texts(page: Seq<char>, selector: Seq<char>) -> Seq<Seq<char>>;

/// Relies on scraper's `Html::parse_document`, `Selector::parse`,
/// `Html::select` and `ElementRef::text`: the texts of the matched elements,
/// which depend on the page and the selector alone. A selector that does not
/// parse matches nothing.
#[verifier::external_body]
pub(crate) fn select_texts(page: &str, selector: &str) -> (r: Vec<String>)
    ensures
        views(r@) == element_texts(page@, selector@),
{
    let document = scraper::Html::parse_document(page);
    let mut texts = Vec::new();
    if let Ok(sel) = scraper::Selector::parse(selector) {
        for element in document.select(&sel) {
            texts.push(element.text().collect::<String>());
        }
    }
    texts
}

/// Name for what scraper gives for an HTML page and a CSS selector when each
/// matched element's inner markup is parsed again as a fragment: the text of
/// that fragment, with all markup tags left out, in the order scraper's
/// `select` yields the elements.
pub uninterp spec fn element_markup_texts(page: Seq<char>, selector: Seq<char>) -> Seq<Seq<char>>;

/// Relies on scraper's `Html::parse_document`, `Selector::parse`,
/// `Html::select`, `ElementRef::inner_html`, `Html::parse_fragment` and
/// `ElementRef::text`: the tag-free texts of the matched elements, which
/// depend on the page and the selector alone. A selector that does not parse
/// matches nothing.
#[verifier::external_body]
pub(crate) fn select_markup_texts(page: &str, selector: &str) -> (r: Vec<String>)
    ensures
        views(r@) == element_markup_texts(page@, selector@),
{
    let document = scraper::Html::parse_document(page);
    let mut texts = Vec::new();
    if let Ok(sel) = scraper::Selector::parse(selector) {
        for element in document.select(&sel) {
            let fragment = scraper::Html::parse_fragment(&element.inner_html());
            texts.push(fragment.root_element().text().collect::<String>());
        }
    }
    texts
}

} // verus!
