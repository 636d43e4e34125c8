//! Accessors for the browser's window, document, location and elements.
//!
//! Each handle is resolved on demand along one chain: window, then document,
//! then location or an element. A stage asks the host, then a verified step
//! narrows the answer into a `Result`; a failure at one stage is passed on by
//! every later one without asking the host again. The `existing` module gives
//! the same chain for call sites where a missing handle is fatal.
pub use js_sys::{self, Reflect};
pub use wasm_bindgen::{self, JsCast, JsValue, UnwrapThrowExt};
pub use web_sys::{Document, Element, Location, Window};

pub use crate::error::{Error, Result};

pub mod error;
pub mod existing;
mod host;

use vstd::prelude::*;

verus! {

/// An error that reports no node for `key`.
pub open spec fn is_not_found(e: Error, key: Seq<char>) -> bool {
    match e {
        Error::ElementNotFound(k) => k@ == key,
        _ => false,
    }
}

/// An error that reports `key` as a malformed selector.
pub open spec fn is_invalid_selectors(e: Error, key: Seq<char>) -> bool {
    match e {
        Error::InvalidSelectors(k) => k@ == key,
        _ => false,
    }
}

/// The errors that resolving the document can end in.
pub open spec fn is_document_failure(e: Error) -> bool {
    e == Error::WindowNotFound || e == Error::DocumentNotFound
}

/// The outcome of resolving the browsing context, given what the host reported.
pub open spec fn window_outcome(found: Option<Window>) -> Result<Window> {
    match found {
        Some(w) => Ok(w),
        None => Err(Error::WindowNotFound),
    }
}

/// The outcome of resolving the document of a resolved browsing context.
pub open spec fn document_outcome(found: Option<Document>) -> Result<Document> {
    match found {
        Some(d) => Ok(d),
        None => Err(Error::DocumentNotFound),
    }
}

/// The outcome of resolving the location of a resolved document.
pub open spec fn location_outcome(found: Option<Location>) -> Result<Location> {
    match found {
        Some(l) => Ok(l),
        None => Err(Error::LocationNotFound),
    }
}

/// Narrows the host's answer for the browsing context into a result.
pub fn require_window(found: Option<Window>) -> (r: Result<Window>)
    ensures
        r == window_outcome(found),
{
    match found {
        Some(w) => Ok(w),
        None => Err(Error::WindowNotFound),
    }
}

/// Narrows the host's answer for the document into a result.
pub fn require_document(found: Option<Document>) -> (r: Result<Document>)
    ensures
        r == document_outcome(found),
{
    match found {
        Some(d) => Ok(d),
        None => Err(Error::DocumentNotFound),
    }
}

/// Narrows the host's answer for the location into a result.
pub fn require_location(found: Option<Location>) -> (r: Result<Location>)
    ensures
        r == location_outcome(found),
{
    match found {
        Some(l) => Ok(l),
        None => Err(Error::LocationNotFound),
    }
}

/// Narrows the host's answer to a lookup by `id` into a result.
pub fn require_element(id: &str, found: Option<Element>) -> (r: Result<Element>)
    ensures
        found is Some ==> r == Ok::<Element, Error>(found->Some_0),
        found is None ==> r is Err && is_not_found(r->Err_0, id@),
{
    match found {
        Some(e) => Ok(e),
        None => Err(Error::ElementNotFound(id.to_owned())),
    }
}

/// Narrows the host's answer to a selector query into a result: a rejected
/// selector is reported as such, whatever else is known.
pub fn require_selected(
    selectors: &str,
    found: core::result::Result<Option<Element>, JsValue>,
) -> (r: Result<Element>)
    ensures
        found is Err ==> r is Err && is_invalid_selectors(r->Err_0, selectors@),
        found matches Ok(None) ==> r is Err && is_not_found(r->Err_0, selectors@),
        found matches Ok(Some(e)) ==> r == Ok::<Element, Error>(e),
{
    match found {
        Err(_) => Err(Error::InvalidSelectors(selectors.to_owned())),
        Ok(None) => Err(Error::ElementNotFound(selectors.to_owned())),
        Ok(Some(e)) => Ok(e),
    }
}

/// Narrows the outcome of casting a node found by id.
pub fn cast_found_by_id<T>(cast: core::result::Result<T, Element>) -> (r: Result<T>)
    ensures
        cast is Ok ==> r == Ok::<T, Error>(cast->Ok_0),
        cast is Err ==> r == Err::<T, Error>(Error::IsNotAnElement),
{
    match cast {
        Ok(t) => Ok(t),
        Err(_) => Err(Error::IsNotAnElement),
    }
}

/// Narrows the outcome of casting a node found by selector; a mismatch keeps
/// the node.
pub fn cast_selected<T>(cast: core::result::Result<T, Element>) -> (r: Result<T>)
    ensures
        cast is Ok ==> r == Ok::<T, Error>(cast->Ok_0),
        cast is Err ==> r == Err::<T, Error>(Error::ElementNotCast(cast->Err_0)),
{
    match cast {
        Ok(t) => Ok(t),
        Err(node) => Err(Error::ElementNotCast(node)),
    }
}

/// The node that the host found by `id`, cast to `T`: a missing node is
/// reported without a cast, a node of another type as `IsNotAnElement`.
pub fn element_from_lookup<T: JsCast>(id: &str, found: Option<Element>) -> (r: Result<T>)
    ensures
        found is None ==> r is Err && is_not_found(r->Err_0, id@),
        found is Some ==> r is Ok || r == Err::<T, Error>(Error::IsNotAnElement),
{
    match require_element(id, found) {
        Err(e) => Err(e),
        Ok(node) => cast_found_by_id(host::cast_into::<T>(node)),
    }
}

/// The node that the host's query with `selectors` matched, cast to `T`: a
/// rejected selector is reported before any match or cast, and a node of
/// another type comes back unchanged in `ElementNotCast`.
pub fn element_from_query<T: JsCast>(
    selectors: &str,
    found: core::result::Result<Option<Element>, JsValue>,
) -> (r: Result<T>)
    ensures
        found is Err ==> r is Err && is_invalid_selectors(r->Err_0, selectors@),
        found matches Ok(None) ==> r is Err && is_not_found(r->Err_0, selectors@),
        found matches Ok(Some(e)) ==> r is Ok || r == Err::<T, Error>(Error::ElementNotCast(e)),
{
    match require_selected(selectors, found) {
        Err(e) => Err(e),
        Ok(node) => cast_selected(host::cast_into::<T>(node)),
    }
}

/// Resolves the document of an already resolved browsing context; an earlier
/// failure is passed on without asking the host anything.
pub fn document_of(window: Result<Window>) -> (r: Result<Document>)
    ensures
        window is Err ==> r == Err::<Document, Error>(window->Err_0),
        window is Ok ==> r is Ok || r == Err::<Document, Error>(Error::DocumentNotFound),
{
    match window {
        Err(e) => Err(e),
        Ok(w) => require_document(w.document()),
    }
}

/// Resolves the location of an already resolved document; an earlier failure
/// is passed on without asking the host anything.
pub fn location_of(document: Result<Document>) -> (r: Result<Location>)
    ensures
        document is Err ==> r == Err::<Location, Error>(document->Err_0),
        document is Ok ==> r is Ok || r == Err::<Location, Error>(Error::LocationNotFound),
{
    match document {
        Err(e) => Err(e),
        Ok(d) => require_location(d.location()),
    }
}

/// Looks a node up by `id` in an already resolved document and casts it to
/// `T`; an earlier failure is passed on without asking the host anything.
pub fn element_by_id_in<T: JsCast>(document: Result<Document>, id: &str) -> (r: Result<T>)
    ensures
        document is Err ==> r == Err::<T, Error>(document->Err_0),
        document is Ok ==> r is Ok || is_not_found(r->Err_0, id@)
            || r->Err_0 == Error::IsNotAnElement,
{
    match document {
        Err(e) => Err(e),
        Ok(d) => element_from_lookup(id, d.get_element_by_id(id)),
    }
}

/// Queries an already resolved document with `selectors` and casts the first
/// match to `T`; an earlier failure is passed on without asking the host
/// anything.
pub fn select_element_in<T: JsCast>(document: Result<Document>, selectors: &str) -> (r: Result<T>)
    ensures
        document is Err ==> r == Err::<T, Error>(document->Err_0),
        document is Ok ==> r is Ok || is_invalid_selectors(r->Err_0, selectors@)
            || is_not_found(r->Err_0, selectors@) || r->Err_0 is ElementNotCast,
{
    match document {
        Err(e) => Err(e),
        Ok(d) => element_from_query(selectors, d.query_selector(selectors)),
    }
}

/// The global browsing context, or `WindowNotFound` where the host has none.
pub fn window() -> (r: Result<Window>)
    ensures
        r is Ok || r == Err::<Window, Error>(Error::WindowNotFound),
{
    require_window(web_sys::window())
}

/// The document of the browsing context.
pub fn document() -> (r: Result<Document>)
    ensures
        r is Ok || is_document_failure(r->Err_0),
{
    document_of(window())
}

/// The navigation location of the document.
pub fn location() -> (r: Result<Location>)
    ensures
        r is Ok || is_document_failure(r->Err_0) || r->Err_0 == Error::LocationNotFound,
{
    location_of(document())
}

/// The node with the given `id`, cast to `T`.
pub fn get_element_by_id<T: JsCast>(id: &str) -> (r: Result<T>)
    ensures
        r is Ok || is_document_failure(r->Err_0) || is_not_found(r->Err_0, id@)
            || r->Err_0 == Error::IsNotAnElement,
{
    element_by_id_in(document(), id)
}

/// The first node that matches `selectors`, cast to `T`.
pub fn select_element<T: JsCast>(selectors: &str) -> (r: Result<T>)
    ensures
        r is Ok || is_document_failure(r->Err_0) || is_invalid_selectors(r->Err_0, selectors@)
            || is_not_found(r->Err_0, selectors@) || r->Err_0 is ElementNotCast,
{
    select_element_in(document(), selectors)
}

} // verus!
