//! Declarative extraction of typed values from parsed HTML.
//!
//! A field is described by a selector and a value function; the type of the
//! field alone decides how many matches are wanted and which failures are
//! tolerated. A struct whose fields are described this way is built from a
//! document in one call, or the call fails with the kind of the first failure
//! and the name of the field it arose in.

pub mod dom;
pub mod error;
pub mod extract;
pub mod from;
pub mod generate;
pub mod utils;

pub use crate::error::{Error, ErrorKind};
pub use crate::extract::{Context, Extract, Extractable};
pub use crate::from::FromSelect;
pub use crate::utils::{attr, html, inner_html, text};
