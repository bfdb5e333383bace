//! The standard value functions: what to read from one matched element.

use vstd::prelude::*;
use scraper::ElementRef;
use crate::dom::{attr_of, element_attr, element_html, element_inner_html, element_text, html_of, inner_html_of, text_of};
use crate::error::ErrorKind;

verus! {

/// Reads the text content of an element. Never fails.
pub fn text(el: ElementRef) -> (value: Result<String, ErrorKind>)
    ensures
        value is Ok,
        value->Ok_0@ == text_of(el),
{
    Ok(element_text(el))
}

/// Reads the markup of an element, its own tag included. Never fails.
pub fn html(el: ElementRef) -> (value: Result<String, ErrorKind>)
    ensures
        value is Ok,
        value->Ok_0@ == html_of(el),
{
    Ok(element_html(el))
}

/// Reads the markup of an element's children. Never fails.
pub fn inner_html(el: ElementRef) -> (value: Result<String, ErrorKind>)
    ensures
        value is Ok,
        value->Ok_0@ == inner_html_of(el),
{
    Ok(element_inner_html(el))
}

/// Reads the value of the attribute `name`; fails with `AttributeNotFound`,
/// naming the attribute, exactly where the element has none of that name.
pub fn attr(el: ElementRef, name: &str) -> (value: Result<String, ErrorKind>)
    ensures
        match attr_of(el, name@) {
            Some(text) => value is Ok && value->Ok_0@ == text,
            None => value is Err && value->Err_0 is AttributeNotFound
                && value->Err_0->AttributeNotFound_0@ == name@,
        },
{
    match element_attr(el, name) {
        Some(text) => Ok(String::from_str(text)),
        None => Err(ErrorKind::AttributeNotFound(String::from_str(name))),
    }
}

} // verus!
