//! The HTML tree and selector engine, as far as extraction relies on them.
//!
//! Nothing in this module is proved: each function states what the engine is
//! taken to do, and the rest of the library is verified against these
//! statements.

use vstd::prelude::*;
use scraper::{ElementRef, Html, Selector};
use scraper::error::SelectorErrorKind;

verus! {

/// `scraper::Html`: a parsed document or fragment.
#[verifier::external_type_specification]
#[verifier::external_body]
pub struct ExHtml(Html);

/// `scraper::ElementRef`: a copyable handle to one element of a document.
#[verifier::external_type_specification]
#[verifier::external_body]
pub struct ExElementRef<'a>(ElementRef<'a>);

/// `scraper::Selector`: a compiled selector group.
#[verifier::external_type_specification]
#[verifier::external_body]
pub struct ExSelector(Selector);

/// `scraper::error::SelectorErrorKind`: why a selector text did not compile.
#[verifier::external_type_specification]
#[verifier::external_body]
pub struct ExSelectorErrorKind(SelectorErrorKind);

/// What compiling a selector text yields.
pub uninterp spec fn parsed_selector(text: Seq<char>) -> Result<Selector, SelectorErrorKind>;

/// The elements of a document that match a selector, in the order in which
/// the document hands them out.
pub uninterp spec fn document_matches(document: Html, selector: Selector) -> Seq<
    ElementRef<'static>,
>;

/// The descendants of an element that match a selector, in the order of a
/// depth-first walk below the element.
pub uninterp spec fn element_matches(element: ElementRef<'static>, selector: Selector) -> Seq<
    ElementRef<'static>,
>;

/// The concatenated text of all text nodes below an element.
pub uninterp spec fn text_of(element: ElementRef<'static>) -> Seq<char>;

/// The serialized markup of an element, its own tag included.
pub uninterp spec fn html_of(element: ElementRef<'static>) -> Seq<char>;

/// The serialized markup of an element's children.
pub uninterp spec fn inner_html_of(element: ElementRef<'static>) -> Seq<char>;

/// The value of the named attribute of an element, if it has one.
pub uninterp spec fn attr_of(element: ElementRef<'static>, name: Seq<char>) -> Option<Seq<char>>;

/// Calls `Selector::parse`. The outcome depends on the text alone, so it is
/// given the name `parsed_selector`.
#[verifier::external_body]
pub(crate) fn parse_selector(text: &str) -> (parsed: Result<Selector, SelectorErrorKind>)
    ensures
        parsed == parsed_selector(text@),
{
    Selector::parse(text)
}

/// Calls `Html::select` and gathers what the iterator hands out, in its
/// order. The iterator walks the document's nodes and keeps the elements that
/// the selector matches, so the outcome depends on the document and the
/// selector alone; it is given the name `document_matches`.
#[verifier::external_body]
pub(crate) fn select_in_document<'a>(document: &'a Html, selector: &Selector) -> (found: Vec<
    ElementRef<'a>,
>)
    ensures
        found@ == document_matches(*document, *selector),
{
    document.select(selector).collect()
}

/// Calls `ElementRef::select` and gathers what the iterator hands out, in its
/// order. The iterator walks the nodes below the element and keeps the
/// elements that the selector matches with the element as scope, so the
/// outcome depends on the element and the selector alone; it is given the
/// name `element_matches`.
#[verifier::external_body]
pub(crate) fn select_in_element<'a>(element: ElementRef<'a>, selector: &Selector) -> (found: Vec<
    ElementRef<'a>,
>)
    ensures
        found@ == element_matches(element, *selector),
{
    element.select(selector).collect()
}

/// Calls `ElementRef::text`, which iterates over the text nodes below the
/// element, and joins the pieces in the order they come. The outcome depends
/// on the element alone; it is given the name `text_of`.
#[verifier::external_body]
pub(crate) fn element_text(element: ElementRef) -> (text: String)
    ensures
        text@ == text_of(element),
{
    element.text().collect()
}

/// Calls `ElementRef::html`, which serializes the element. The outcome
/// depends on the element alone; it is given the name `html_of`.
#[verifier::external_body]
pub(crate) fn element_html(element: ElementRef) -> (markup: String)
    ensures
        markup@ == html_of(element),
{
    element.html()
}

/// Calls `ElementRef::inner_html`, which serializes the element's children.
/// The outcome depends on the element alone; it is given the name
/// `inner_html_of`.
#[verifier::external_body]
pub(crate) fn element_inner_html(element: ElementRef) -> (markup: String)
    ensures
        markup@ == inner_html_of(element),
{
    element.inner_html()
}

/// Calls `ElementRef::attr`, which returns the attribute's value, or `None`
/// where the element has no attribute of that name. The outcome depends on
/// the element and the name alone; it is given the name `attr_of`.
#[verifier::external_body]
pub(crate) fn element_attr<'a>(element: ElementRef<'a>, name: &str) -> (value: Option<&'a str>)
    ensures
        match value {
            Some(text) => attr_of(element, name@) == Some(text@),
            None => attr_of(element, name@) is None,
        },
{
    element.attr(name)
}

} // verus!
