//! Types that build themselves from a document, and the contexts they read.

use vstd::prelude::*;
use scraper::{ElementRef, Html, Selector};
use crate::dom::{document_matches, element_matches, select_in_document, select_in_element};
use crate::error::Error;

verus! {

/// A place that selectors can be applied to: a whole document or one element.
pub trait Context<'a>: Copy {
    /// The elements that `selector` matches here, in the order in which this
    /// place hands them out.
    spec fn matches(self, selector: Selector) -> Seq<ElementRef<'a>>;

    /// Collects the elements that `selector` matches, keeping their order.
    fn select_all(self, selector: &Selector) -> (found: Vec<ElementRef<'a>>)
        ensures
            found@ == self.matches(*selector),
    ;
}

impl<'a> Context<'a> for &'a Html {
    open spec fn matches(self, selector: Selector) -> Seq<ElementRef<'a>> {
        document_matches(*self, selector)
    }

    fn select_all(self, selector: &Selector) -> (found: Vec<ElementRef<'a>>) {
        select_in_document(self, selector)
    }
}

impl<'a> Context<'a> for ElementRef<'a> {
    open spec fn matches(self, selector: Selector) -> Seq<ElementRef<'a>> {
        element_matches(self, selector)
    }

    fn select_all(self, selector: &Selector) -> (found: Vec<ElementRef<'a>>) {
        select_in_element(self, selector)
    }
}

/// A type that can be built from a context, field by field.
///
/// An implementation selects once per field, in declaration order, attributes
/// the first failing field's kind to that field and returns it at once; only
/// when every field has its value is the instance assembled.
pub trait Extract: Sized {
    fn extract_from<'a, T>(extractable: T) -> Result<Self, Error> where T: Context<'a>;
}

/// Gives every context the method `extract`.
pub trait Extractable<'a>: Context<'a> {
    /// Builds a `T` from this context.
    fn extract<T: Extract>(self) -> (extracted: Result<T, Error>)
        ensures
            call_ensures(T::extract_from::<Self>, (self,), extracted),
    {
        T::extract_from(self)
    }
}

impl<'a, C> Extractable<'a> for C where C: Context<'a> {
}

} // verus!
