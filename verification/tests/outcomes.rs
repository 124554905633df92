use minimal::document::{selected, selected_for_html};
use minimal::element::{class_name_read, closest_match, placed_beside, selected_below};
use minimal::window::document_read;

#[test]
fn a_document_search_hands_its_match_back() {
    let outcome: Result<Option<u32>, String> = Ok(Some(4));
    assert_eq!(selected(outcome, "h1").unwrap(), 4);
}

#[test]
fn a_document_search_tells_rejection_from_no_match() {
    let rejected: Result<Option<u32>, String> = Err("syntax".to_string());
    let empty: Result<Option<u32>, String> = Ok(None);
    assert_eq!(
        selected(rejected, "h1[").unwrap_err().message,
        "No Element with this selector found : h1["
    );
    assert_eq!(
        selected(empty, "h7").unwrap_err().message,
        "It's not possible convert a Null to Element : h7"
    );
}

#[test]
fn a_document_search_for_a_styled_element_tells_rejection_from_no_match() {
    let found: Result<Option<u32>, String> = Ok(Some(4));
    let rejected: Result<Option<u32>, String> = Err("syntax".to_string());
    let empty: Result<Option<u32>, String> = Ok(None);
    assert_eq!(selected_for_html(found, "h1").unwrap(), 4);
    assert_eq!(
        selected_for_html(rejected, "h1[").unwrap_err().message,
        "No HtmlElement with this selector found: h1["
    );
    assert_eq!(
        selected_for_html(empty, "h7").unwrap_err().message,
        "It's not possible convert a null Element to HtmlElement : h7"
    );
}

#[test]
fn a_search_below_an_element_tells_rejection_from_no_match() {
    let found: Result<Option<u32>, String> = Ok(Some(9));
    let rejected: Result<Option<u32>, String> = Err("syntax".to_string());
    let empty: Result<Option<u32>, String> = Ok(None);
    assert_eq!(selected_below(found, "p").unwrap(), 9);
    assert_eq!(selected_below(rejected, "p[").unwrap_err().message, "No element found for : p[");
    assert_eq!(selected_below(empty, "p").unwrap_err().message, "there's been a problem");
}

#[test]
fn a_search_of_the_ancestors_tells_rejection_from_no_match() {
    let found: Result<Option<u32>, String> = Ok(Some(9));
    let rejected: Result<Option<u32>, String> = Err("syntax".to_string());
    let empty: Result<Option<u32>, String> = Ok(None);
    assert_eq!(closest_match(found).unwrap(), 9);
    assert_eq!(closest_match(rejected).unwrap_err().message, "No closest element found");
    assert_eq!(closest_match(empty).unwrap_err().message, "There's been a problem");
}

#[test]
fn an_insertion_tells_a_rejected_position_from_no_element() {
    let found: Result<Option<u32>, String> = Ok(Some(9));
    let rejected: Result<Option<u32>, String> = Err("position".to_string());
    let empty: Result<Option<u32>, String> = Ok(None);
    assert_eq!(placed_beside(found).unwrap(), 9);
    assert_eq!(
        placed_beside(rejected).unwrap_err().message,
        "It has not been possible insert element"
    );
    assert_eq!(placed_beside(empty).unwrap_err().message, "There's been a problem");
}

#[test]
fn a_class_name_that_cannot_be_read_is_a_failure() {
    let read: Result<wasm_bindgen::JsValue, u32> = Err(1);
    assert_eq!(class_name_read(read).unwrap_err().message, "It's not possible read the class name");
}

#[test]
fn a_document_that_cannot_be_read_is_a_failure() {
    let read: Result<wasm_bindgen::JsValue, u32> = Err(1);
    assert_eq!(document_read(read).unwrap_err().message, "There's not a document.");
}
