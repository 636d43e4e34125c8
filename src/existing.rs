//! The assume-present family: the same resolution chain as the crate root, for
//! call sites where a missing handle is a fault of the environment. Each
//! function hands back either the handle or a `Fatal` whose message the caller
//! aborts with; it never reports a recoverable `Error`.
use vstd::prelude::*;
use vstd::string::StringExecFns;
use wasm_bindgen::{JsCast, JsValue};
use web_sys::{Document, Element, Location, Window};

use crate::error::{Error, Result};
use crate::host;
use crate::{is_document_failure, is_not_found};

verus! {

/// The diagnostic that the current unit of execution aborts with.
pub struct Fatal {
    pub message: String,
}

pub open spec fn no_window_text() -> Seq<char> {
    "Should have a window in this context"@
}

pub open spec fn no_document_text() -> Seq<char> {
    "Window should have a document"@
}

pub open spec fn no_location_text() -> Seq<char> {
    "Document should have a location"@
}

pub open spec fn not_object_text() -> Seq<char> {
    "Target should be an Object"@
}

pub open spec fn id_not_found_text(id: Seq<char>) -> Seq<char> {
    "Document should have an element with id = `"@ + id + "`"@
}

pub open spec fn id_not_cast_text(id: Seq<char>) -> Seq<char> {
    "Element with id = `"@ + id + "` should cast to target type"@
}

/// The start of the message for a selector the host rejected; the host's
/// description of its exception follows.
pub open spec fn invalid_selectors_text(selectors: Seq<char>) -> Seq<char> {
    "Specified selectors = `"@ + selectors + "` is invalid: "@
}

pub open spec fn selector_not_found_text(selectors: Seq<char>) -> Seq<char> {
    "Document should have an element accessible by selectors = `"@ + selectors + "`"@
}

/// The start of the message for a selected node of the wrong type; the host's
/// description of the node follows.
pub open spec fn selector_not_cast_text(selectors: Seq<char>) -> Seq<char> {
    "Element to select by `"@ + selectors + "` should cast to target type: "@
}

/// The failures of the chain up to and including the location.
pub open spec fn is_resolution_failure(e: Error) -> bool {
    is_document_failure(e) || e == Error::LocationNotFound
}

/// The message for a failure to resolve the window, document or location.
pub open spec fn resolution_text(e: Error) -> Seq<char> {
    match e {
        Error::WindowNotFound => no_window_text(),
        Error::DocumentNotFound => no_document_text(),
        _ => no_location_text(),
    }
}

/// The message for a failed lookup of the node with id `id`.
pub open spec fn id_lookup_text(id: Seq<char>, e: Error) -> Seq<char> {
    match e {
        Error::ElementNotFound(_) => id_not_found_text(id),
        Error::IsNotAnElement => id_not_cast_text(id),
        _ => resolution_text(e),
    }
}

/// `f` passes on the value of `r`, or aborts where `r` failed with the
/// message for that failure.
pub open spec fn resolves_as<T>(f: core::result::Result<T, Fatal>, r: Result<T>) -> bool {
    match r {
        Ok(v) => f == Ok::<T, Fatal>(v),
        Err(e) => f is Err && f->Err_0.message@ == resolution_text(e),
    }
}

/// `f` passes on the value of a lookup by `id`, or aborts where it failed
/// with the message for that failure.
pub open spec fn found_by_id_as<T>(
    f: core::result::Result<T, Fatal>,
    id: Seq<char>,
    r: Result<T>,
) -> bool {
    match r {
        Ok(v) => f == Ok::<T, Fatal>(v),
        Err(e) => f is Err && f->Err_0.message@ == id_lookup_text(id, e),
    }
}

fn fatal(text: &str) -> (r: Fatal)
    ensures
        r.message@ == text@,
{
    Fatal { message: text.to_owned() }
}

/// `head`, then `key`, then `tail`.
fn fatal_around(head: &str, key: &str, tail: &str) -> (r: Fatal)
    ensures
        r.message@ == head@ + key@ + tail@,
{
    let mut message = head.to_owned();
    message.append(key);
    message.append(tail);
    Fatal { message }
}

/// The diagnostic for a failure to resolve the window, document or location.
pub fn resolution_fatal(e: &Error) -> (r: Fatal)
    requires
        is_resolution_failure(*e),
    ensures
        r.message@ == resolution_text(*e),
{
    match e {
        Error::WindowNotFound => fatal("Should have a window in this context"),
        Error::DocumentNotFound => fatal("Window should have a document"),
        _ => fatal("Document should have a location"),
    }
}

/// Passes on a resolved window, document or location, or the diagnostic for
/// the stage that failed.
pub fn expect_resolved<T>(r: Result<T>) -> (f: core::result::Result<T, Fatal>)
    requires
        r is Err ==> is_resolution_failure(r->Err_0),
    ensures
        resolves_as(f, r),
{
    match r {
        Ok(v) => Ok(v),
        Err(e) => Err(resolution_fatal(&e)),
    }
}

/// Passes on the node found by `id`, or the diagnostic for the failure.
pub fn expect_found_by_id<T>(id: &str, r: Result<T>) -> (f: core::result::Result<T, Fatal>)
    requires
        r is Err ==> is_document_failure(r->Err_0) || is_not_found(r->Err_0, id@) || r->Err_0
            == Error::IsNotAnElement,
    ensures
        found_by_id_as(f, id@, r),
{
    match r {
        Ok(v) => Ok(v),
        Err(Error::ElementNotFound(_)) => Err(
            fatal_around("Document should have an element with id = `", id, "`"),
        ),
        Err(Error::IsNotAnElement) => Err(
            fatal_around("Element with id = `", id, "` should cast to target type"),
        ),
        Err(e) => Err(resolution_fatal(&e)),
    }
}

/// `head`, then `key`, then `tail`, then the host's description `described`.
fn fatal_describing(head: &str, key: &str, tail: &str, described: String) -> (r: Fatal)
    ensures
        (head@ + key@ + tail@).is_prefix_of(r.message@),
{
    let mut r = fatal_around(head, key, tail);
    let ghost start = r.message@;
    r.message.append(described.as_str());
    assert(start.is_prefix_of(r.message@)) by {
        assert(r.message@.subrange(0, start.len() as int) =~= start);
    }
    r
}

/// Passes on the node that the host's query with `selectors` matched, or the
/// diagnostic: a rejected selector is reported with the host's description of
/// its exception, whatever else is known.
pub fn expect_selected(
    selectors: &str,
    found: core::result::Result<Option<Element>, JsValue>,
) -> (f: core::result::Result<Element, Fatal>)
    ensures
        found is Err ==> f is Err && invalid_selectors_text(selectors@).is_prefix_of(
            f->Err_0.message@,
        ),
        found matches Ok(None) ==> f is Err && f->Err_0.message@ == selector_not_found_text(
            selectors@,
        ),
        found matches Ok(Some(e)) ==> f == Ok::<Element, Fatal>(e),
{
    match found {
        Err(exception) => Err(
            fatal_describing(
                "Specified selectors = `",
                selectors,
                "` is invalid: ",
                host::value_debug(&exception),
            ),
        ),
        Ok(None) => Err(
            fatal_around(
                "Document should have an element accessible by selectors = `",
                selectors,
                "`",
            ),
        ),
        Ok(Some(e)) => Ok(e),
    }
}

/// Passes on the selected node cast to `T`, or the diagnostic with the host's
/// description of the node.
pub fn expect_cast_selected<T>(selectors: &str, cast: core::result::Result<T, Element>) -> (f:
    core::result::Result<T, Fatal>)
    ensures
        cast is Ok ==> f == Ok::<T, Fatal>(cast->Ok_0),
        cast is Err ==> f is Err && selector_not_cast_text(selectors@).is_prefix_of(
            f->Err_0.message@,
        ),
{
    match cast {
        Ok(v) => Ok(v),
        Err(node) => Err(
            fatal_describing(
                "Element to select by `",
                selectors,
                "` should cast to target type: ",
                host::element_debug(&node),
            ),
        ),
    }
}

/// The global browsing context.
pub fn window() -> (r: core::result::Result<Window, Fatal>)
    ensures
        r is Err ==> r->Err_0.message@ == no_window_text(),
{
    expect_resolved(crate::window())
}

/// The document of the browsing context.
pub fn document() -> (r: core::result::Result<Document, Fatal>)
    ensures
        r is Err ==> exists|e: Error| is_document_failure(e) && resolves_as(r, Err(e)),
{
    let d = crate::document();
    let r = expect_resolved(d);
    assert(d is Err ==> resolves_as(r, Err(d->Err_0)));
    r
}

/// The navigation location of the document.
pub fn location() -> (r: core::result::Result<Location, Fatal>)
    ensures
        r is Err ==> exists|e: Error| is_resolution_failure(e) && resolves_as(r, Err(e)),
{
    let l = crate::location();
    let r = expect_resolved(l);
    assert(l is Err ==> is_resolution_failure(l->Err_0) && resolves_as(r, Err(l->Err_0)));
    r
}

/// The node with the given `id`, cast to `T`.
pub fn get_element_by_id<T: JsCast>(id: &str) -> (r: core::result::Result<T, Fatal>)
    ensures
        r is Err ==> exists|e: Error|
            (is_document_failure(e) || is_not_found(e, id@) || e == Error::IsNotAnElement)
                && found_by_id_as(r, id@, Err(e)),
{
    let found = crate::get_element_by_id::<T>(id);
    let r = expect_found_by_id(id, found);
    assert(found is Err ==> found_by_id_as(r, id@, Err(found->Err_0)));
    r
}

/// The first node that matches `selectors`, cast to `T`. The query is made
/// here rather than through the crate root, so that a rejected selector is
/// reported with the host's exception.
pub fn select_element<T: JsCast>(selectors: &str) -> (r: core::result::Result<T, Fatal>)
    ensures
        r is Err ==> (exists|e: Error| is_document_failure(e) && resolves_as(r, Err(e)))
            || invalid_selectors_text(selectors@).is_prefix_of(r->Err_0.message@)
            || r->Err_0.message@ == selector_not_found_text(selectors@)
            || selector_not_cast_text(selectors@).is_prefix_of(r->Err_0.message@),
{
    match crate::document() {
        Err(e) => {
            let r = expect_resolved::<T>(Err(e));
            assert(resolves_as(r, Err(e)));
            r
        },
        Ok(d) => match expect_selected(selectors, d.query_selector(selectors)) {
            Err(f) => Err(f),
            Ok(node) => expect_cast_selected(selectors, host::cast_into::<T>(node)),
        },
    }
}

/// Passes on the outcome of a reflective access, or the diagnostic where the
/// host refused it.
pub fn expect_object<T>(outcome: core::result::Result<T, JsValue>) -> (r: core::result::Result<
    T,
    Fatal,
>)
    ensures
        outcome is Ok ==> r == Ok::<T, Fatal>(outcome->Ok_0),
        outcome is Err ==> r is Err && r->Err_0.message@ == not_object_text(),
{
    match outcome {
        Ok(v) => Ok(v),
        Err(_) => Err(fatal("Target should be an Object")),
    }
}

/// Reading and writing a named property of a host object.
pub trait JsObjectAccess {
    /// The value of `property`; fails where the host refuses the access.
    fn get<P: Into<JsValue>>(&self, property: P) -> (r: core::result::Result<JsValue, Fatal>)
        ensures
            r is Err ==> r->Err_0.message@ == not_object_text(),
    ;

    /// Assigns `value` to `property`; `Ok` says whether the host accepted it.
    fn set<P: Into<JsValue>, V: Into<JsValue>>(&self, property: P, value: V) -> (r:
        core::result::Result<bool, Fatal>)
        ensures
            r is Err ==> r->Err_0.message@ == not_object_text(),
    ;
}

impl JsObjectAccess for JsValue {
    fn get<P: Into<JsValue>>(&self, property: P) -> (r: core::result::Result<JsValue, Fatal>) {
        expect_object(host::reflect_get(self, property))
    }

    fn set<P: Into<JsValue>, V: Into<JsValue>>(&self, property: P, value: V) -> (r:
        core::result::Result<bool, Fatal>) {
        expect_object(host::reflect_set(self, property, value))
    }
}

} // verus!
