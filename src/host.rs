use vstd::prelude::*;
use wasm_bindgen::JsValue;
use web_sys::{Document, Element, Location, Window};

verus! {

// The host's handles, opaque here: the library only carries them through.
#[verifier::external_type_specification]
#[verifier::external_body]
pub struct ExJsValue(JsValue);

#[verifier::external_type_specification]
#[verifier::external_body]
pub struct ExWindow(Window);

#[verifier::external_type_specification]
#[verifier::external_body]
pub struct ExDocument(Document);

#[verifier::external_type_specification]
#[verifier::external_body]
pub struct ExLocation(Location);

#[verifier::external_type_specification]
#[verifier::external_body]
pub struct ExElement(Element);

} // verus!

verus! {

/// Relies on web_sys::window: the global object when it is a `Window`, else
/// nothing. What it finds depends on the host, so nothing is promised of it.
pub assume_specification[ web_sys::window ]() -> Option<Window>;

/// Relies on the `document` getter of `Window`; the answer depends on the host.
pub assume_specification[ Window::document ](this: &Window) -> Option<Document>;

/// Relies on the `location` getter of `Document`; the answer depends on the host.
pub assume_specification[ Document::location ](this: &Document) -> Option<Location>;

/// Relies on `Document::get_element_by_id`; the answer depends on the host.
pub assume_specification[ Document::get_element_by_id ](
    this: &Document,
    element_id: &str,
) -> Option<Element>;

/// Relies on `Document::query_selector`: `Err` carries the exception the host
/// raised for a malformed selector; which node matches depends on the host.
pub assume_specification[ Document::query_selector ](
    this: &Document,
    selectors: &str,
) -> core::result::Result<Option<Element>, JsValue>;

/// Relies on `JsCast::dyn_into`: when the runtime check fails it hands the
/// same node back unchanged.
#[verifier::external_body]
pub fn cast_into<T: wasm_bindgen::JsCast>(node: Element) -> (r: core::result::Result<T, Element>)
    ensures
        r is Err ==> r->Err_0 == node,
{
    wasm_bindgen::JsCast::dyn_into::<T>(node)
}

} // verus!

verus! {

/// Relies on the `Debug` impl of `JsValue`, which asks the host to describe
/// the value; the text depends on the host.
#[verifier::external_body]
pub fn value_debug(value: &JsValue) -> (r: String) {
    format!("{:?}", value)
}

/// Relies on the `Debug` impl of `Element`, which asks the host to describe
/// the node; the text depends on the host.
#[verifier::external_body]
pub fn element_debug(node: &Element) -> (r: String) {
    format!("{:?}", node)
}

/// Relies on `js_sys::Reflect::get`: `Err` carries the exception the host
/// raised, as it does for a target that is not an object.
#[verifier::external_body]
pub fn reflect_get<P: Into<JsValue>>(target: &JsValue, property: P) -> (r:
    core::result::Result<JsValue, JsValue>) {
    js_sys::Reflect::get(target, &property.into())
}

/// Relies on `js_sys::Reflect::set`: `Ok` says whether the host accepted the
/// assignment, `Err` carries the exception it raised.
#[verifier::external_body]
pub fn reflect_set<P: Into<JsValue>, V: Into<JsValue>>(
    target: &JsValue,
    property: P,
    value: V,
) -> (r: core::result::Result<bool, JsValue>) {
    js_sys::Reflect::set(target, &property.into(), &value.into())
}

} // verus!
