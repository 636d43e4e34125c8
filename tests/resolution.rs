use web_dom::{
    cast_found_by_id, cast_selected, document_of, element_by_id_in, element_from_lookup,
    element_from_query, location_of, require_document,
    require_element, require_location, require_selected, require_window, select_element_in, Element,
    Error, JsCast, JsValue, Window,
};

fn detached_element() -> Element {
    JsValue::NULL.unchecked_into::<Element>()
}

#[test]
fn missing_window_is_reported() {
    assert!(matches!(require_window(None), Err(Error::WindowNotFound)));
}

#[test]
fn present_window_is_kept() {
    let w: Window = JsValue::NULL.unchecked_into::<Window>();
    assert!(matches!(require_window(Some(w)), Ok(_)));
}

#[test]
fn missing_window_propagates_through_every_stage() {
    assert!(matches!(document_of(Err(Error::WindowNotFound)), Err(Error::WindowNotFound)));
    assert!(matches!(location_of(Err(Error::WindowNotFound)), Err(Error::WindowNotFound)));
    assert!(matches!(
        element_by_id_in::<Element>(Err(Error::WindowNotFound), "app"),
        Err(Error::WindowNotFound)
    ));
    assert!(matches!(
        select_element_in::<Element>(Err(Error::WindowNotFound), "#app"),
        Err(Error::WindowNotFound)
    ));
}

#[test]
fn missing_document_propagates() {
    assert!(matches!(location_of(Err(Error::DocumentNotFound)), Err(Error::DocumentNotFound)));
    assert!(matches!(
        element_by_id_in::<Element>(Err(Error::DocumentNotFound), "app"),
        Err(Error::DocumentNotFound)
    ));
    assert!(matches!(
        select_element_in::<Element>(Err(Error::DocumentNotFound), "#app"),
        Err(Error::DocumentNotFound)
    ));
}

#[test]
fn missing_document_is_reported() {
    assert!(matches!(require_document(None), Err(Error::DocumentNotFound)));
}

#[test]
fn missing_location_is_reported() {
    assert!(matches!(require_location(None), Err(Error::LocationNotFound)));
}

#[test]
fn missing_id_is_reported_with_the_id() {
    match require_element("missing", None) {
        Err(Error::ElementNotFound(id)) => assert_eq!(id, "missing"),
        _ => panic!("expected ElementNotFound"),
    }
}

#[test]
fn found_id_is_kept() {
    assert!(matches!(require_element("app", Some(detached_element())), Ok(_)));
}

#[test]
fn missing_selector_match_is_reported() {
    match require_selected("#missing", Ok(None)) {
        Err(Error::ElementNotFound(s)) => assert_eq!(s, "#missing"),
        _ => panic!("expected ElementNotFound"),
    }
}

#[test]
fn invalid_selector_is_reported() {
    match require_selected(":::bad", Err(JsValue::NULL)) {
        Err(Error::InvalidSelectors(s)) => assert_eq!(s, ":::bad"),
        _ => panic!("expected InvalidSelectors"),
    }
}

#[test]
fn selected_node_is_kept() {
    assert!(matches!(require_selected("#app", Ok(Some(detached_element()))), Ok(_)));
}

#[test]
fn id_cast_failure_is_not_an_element() {
    let cast: Result<u8, Element> = Err(detached_element());
    assert!(matches!(cast_found_by_id(cast), Err(Error::IsNotAnElement)));
    assert!(matches!(cast_found_by_id::<u8>(Ok(7)), Ok(7)));
}

#[test]
fn selector_cast_failure_keeps_the_node() {
    let cast: Result<u8, Element> = Err(detached_element());
    assert!(matches!(cast_selected(cast), Err(Error::ElementNotCast(_))));
    assert!(matches!(cast_selected::<u8>(Ok(7)), Ok(7)));
}

#[test]
fn equal_host_answers_give_equal_outcomes() {
    assert!(matches!(require_window(None), Err(Error::WindowNotFound)));
    assert!(matches!(require_window(None), Err(Error::WindowNotFound)));
    assert!(matches!(require_document(None), Err(Error::DocumentNotFound)));
    assert!(matches!(require_document(None), Err(Error::DocumentNotFound)));
}

#[test]
fn lookup_without_node_reports_the_id() {
    match element_from_lookup::<Element>("missing", None) {
        Err(Error::ElementNotFound(id)) => assert_eq!(id, "missing"),
        _ => panic!("expected ElementNotFound"),
    }
}

#[test]
fn query_with_missing_id_reports_the_selector() {
    match element_from_query::<Element>("#missing", Ok(None)) {
        Err(Error::ElementNotFound(s)) => assert_eq!(s, "#missing"),
        _ => panic!("expected ElementNotFound"),
    }
}

#[test]
fn rejected_query_reports_the_selector() {
    match element_from_query::<Element>(":::bad", Err(JsValue::NULL)) {
        Err(Error::InvalidSelectors(s)) => assert_eq!(s, ":::bad"),
        _ => panic!("expected InvalidSelectors"),
    }
}
