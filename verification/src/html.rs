//! The boundary to the HTML/CSS-selector matching collaborator.
//!
//! Parsed documents, compiled selectors and element handles are opaque here:
//! which nodes a selector matches is assumed correct, never reimplemented.
//! These wrappers move plain strings across that boundary; everything
//! value-level that follows them is verified in the extractor.

use vstd::prelude::*;

verus! {

#[verifier::external_type_specification]
#[verifier::external_body]
pub struct ExSelector(scraper::Selector);

#[verifier::external_type_specification]
#[verifier::external_body]
pub struct ExHtml(scraper::Html);

#[verifier::external_type_specification]
#[verifier::external_body]
pub struct ExElementRef<'a>(scraper::ElementRef<'a>);

/// Whether the given text compiles as a CSS selector group.
pub uninterp spec fn selector_ok(s: Seq<char>) -> bool;

/// Relies on scraper::Selector::parse: compiles the selector text; success
/// depends on the text alone.
#[verifier::external_body]
pub(crate) fn parse_selector(s: &str) -> (r: Option<scraper::Selector>)
    ensures
        r is Some <==> selector_ok(s@),
{
    scraper::Selector::parse(s).ok()
}

/// Relies on scraper::Html::parse_document: parses the body as a full HTML
/// document.
#[verifier::external_body]
pub(crate) fn parse_html(body: &str) -> scraper::Html {
    scraper::Html::parse_document(body)
}

/// Relies on scraper::Html::select: the elements of the document matching the
/// selector, in the order scraper yields them (document order on well-formed
/// pages).
#[verifier::external_body]
pub(crate) fn select_all<'a>(doc: &'a scraper::Html, sel: &scraper::Selector) -> Vec<
    scraper::ElementRef<'a>,
> {
    doc.select(sel).collect()
}

/// Relies on scraper::ElementRef::select: the first descendant element of the
/// node matching the selector, if any.
#[verifier::external_body]
pub(crate) fn select_first_within<'a>(
    node: &scraper::ElementRef<'a>,
    sel: &scraper::Selector,
) -> Option<scraper::ElementRef<'a>> {
    node.select(sel).next()
}

/// Relies on scraper::ElementRef::text: the concatenated text of the node's
/// descendant text nodes, in document order.
#[verifier::external_body]
pub(crate) fn element_text(node: &scraper::ElementRef<'_>) -> String {
    node.text().collect::<String>()
}

/// Relies on scraper::ElementRef::attr: the value of the node's `href`
/// attribute, if present.
#[verifier::external_body]
pub(crate) fn element_href(node: &scraper::ElementRef<'_>) -> Option<String> {
    node.attr("href").map(|href| href.to_string())
}

} // verus!
