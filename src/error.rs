use vstd::prelude::*;
use web_sys::Element;

verus! {

/// Why a DOM handle could not be resolved.
///
/// A node of the wrong type is reported differently by the two lookups: a
/// lookup by id reports `IsNotAnElement` and drops the node, a selector query
/// reports `ElementNotCast` and keeps it for diagnostics.
pub enum Error {
    /// No global browsing context exists in this host.
    WindowNotFound,
    /// The browsing context has no document.
    DocumentNotFound,
    /// The document has no resolved navigation location.
    LocationNotFound,
    /// The selector string fails the host's syntax validation.
    InvalidSelectors(String),
    /// No node matched the identifier or selector.
    ElementNotFound(String),
    /// A node found by id could not be narrowed to the requested type.
    IsNotAnElement,
    /// A node found by selector could not be narrowed to the requested type.
    ElementNotCast(Element),
}

pub type Result<T> = core::result::Result<T, Error>;

} // verus!
