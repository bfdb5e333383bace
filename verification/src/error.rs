//! Failure kinds and their attribution to a field.

use vstd::prelude::*;
use vstd::string::to_string_from_display_ensures;

verus! {

/// Why a single selection or value extraction failed.
///
/// A kind knows nothing of the field it arose in, so a value function can
/// produce one from an element alone.
#[derive(Debug)]
pub enum ErrorKind {
    /// The selector text could not be parsed; holds the parser's diagnostic.
    InvalidSelector(String),
    /// No element matched the selector.
    ElementNotFound,
    /// The element lacks the named attribute.
    AttributeNotFound(String),
    /// A failure raised by a caller-supplied value function; holds the
    /// cause's own message.
    Custom(String),
}

/// A failure kind attributed to the one field whose extraction produced it.
#[derive(Debug)]
pub struct Error {
    field: String,
    kind: ErrorKind,
}

/// The text that describes a kind, without any field.
pub open spec fn kind_text(kind: ErrorKind) -> Seq<char> {
    match kind {
        ErrorKind::InvalidSelector(_) => "invalid selector provided"@,
        ErrorKind::ElementNotFound => "no element match the selector"@,
        ErrorKind::AttributeNotFound(name) => "the element does not contain attribute `"@
            + name@ + "`"@,
        ErrorKind::Custom(_) => "custom error"@,
    }
}

/// The text that describes a kind together with the field it is attributed to.
pub open spec fn error_text(field: Seq<char>, kind: ErrorKind) -> Seq<char> {
    kind_text(kind) + " in field `"@ + field + "`"@
}

impl ErrorKind {
    /// Wraps a foreign failure as a `Custom` kind that carries the failure's
    /// displayed message.
    pub fn custom<E>(err: E) -> (kind: Self) where E: std::error::Error + 'static
        ensures
            kind is Custom,
            to_string_from_display_ensures::<E>(&err, kind->Custom_0),
    {
        Self::Custom(err.to_string())
    }

    /// Attributes this kind to `field`.
    pub fn with_field(self, field: &str) -> (error: Error)
        ensures
            error.field_spec() == field@,
            error.kind_spec() == self,
    {
        Error { field: String::from_str(field), kind: self }
    }

    /// The human-readable description of this kind.
    pub fn message(&self) -> (text: String)
        ensures
            text@ == kind_text(*self),
    {
        match self {
            ErrorKind::InvalidSelector(_) => String::from_str("invalid selector provided"),
            ErrorKind::ElementNotFound => String::from_str("no element match the selector"),
            ErrorKind::AttributeNotFound(name) => {
                let mut text = String::from_str("the element does not contain attribute `");
                text.append(name.as_str());
                text.append("`");
                text
            },
            ErrorKind::Custom(_) => String::from_str("custom error"),
        }
    }
}

impl Error {
    /// The name of the field this error is attributed to, as a sequence of characters.
    pub closed spec fn field_spec(&self) -> Seq<char> {
        self.field@
    }

    /// The kind this error carries.
    pub closed spec fn kind_spec(&self) -> ErrorKind {
        self.kind
    }

    /// The name of the field whose extraction failed.
    pub fn field(&self) -> (name: &str)
        ensures
            name@ == self.field_spec(),
    {
        self.field.as_str()
    }

    /// The kind of failure.
    pub fn kind(&self) -> (kind: &ErrorKind)
        ensures
            *kind == self.kind_spec(),
    {
        &self.kind
    }

    /// The human-readable description: the kind's text followed by the field.
    pub fn message(&self) -> (text: String)
        ensures
            text@ == error_text(self.field_spec(), self.kind_spec()),
    {
        let mut text = self.kind.message();
        text.append(" in field `");
        text.append(self.field.as_str());
        text.append("`");
        text
    }
}

} // verus!
