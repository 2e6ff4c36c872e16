//! Reading the templates of outgoing mail.

use vstd::prelude::*;

verus! {

/// The CSS selector of a document's title element.
pub const TITLE_SELECTOR: &'static str = "title";

/// Whether `scraper::Selector::parse` accepts a CSS selector.
pub uninterp spec fn css_selector_parses(selector: Seq<char>) -> bool;

/// What `scraper` gives as the inner HTML of the first element of the
/// document `Html::parse_document` makes of `html` that `Html::select` finds
/// for the selector `Selector::parse` makes of `selector`, if one matches.
pub uninterp spec fn html_first_match(html: Seq<char>, selector: Seq<char>) -> Option<Seq<char>>;

/// Parses `html` as a document and `selector` as a CSS selector with
/// `scraper`, and gives the inner HTML of the first matching element. The
/// contract claims only that the outer result is present exactly when the
/// selector parses, and the inner one is then what `scraper` finds.
#[verifier::external_body]
fn select_first_inner_html(html: &str, selector: &str) -> (r: Option<Option<String>>)
    ensures
        r is Some <==> css_selector_parses(selector@),
        match r {
            Some(Some(t)) => html_first_match(html@, selector@) == Some(t@),
            Some(None) => html_first_match(html@, selector@) is None,
            None => true,
        },
{
    let document = scraper::Html::parse_document(html);
    match scraper::Selector::parse(selector) {
        Ok(s) => match document.select(&s).next() {
            Some(elem) => Some(Some(elem.inner_html())),
            None => Some(None),
        },
        Err(_) => None,
    }
}

/// The title of a document: the inner HTML of its first `title` element, or
/// none when it has none (or the selector were refused).
pub open spec fn html_title(html: Seq<char>) -> Option<Seq<char>> {
    if css_selector_parses(TITLE_SELECTOR@) {
        html_first_match(html, TITLE_SELECTOR@)
    } else {
        None
    }
}

/// The inner HTML of the first `<title>` element of an HTML document, as
/// `scraper` parses it.
pub fn extract_title(html: &str) -> (r: Option<String>)
    ensures
        match r {
            Some(t) => html_title(html@) == Some(t@),
            None => html_title(html@) is None,
        },
{
    match select_first_inner_html(html, TITLE_SELECTOR) {
        Some(found) => found,
        None => None,
    }
}

} // verus!
