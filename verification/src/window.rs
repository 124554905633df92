//! The entry points: the host's window and the document it shows.

use vstd::prelude::*;
use vstd::string::*;
use wasm_bindgen::JsValue;
use web_sys::{Document, Element, HtmlElement, Window};
use crate::document::MinimalDocument;
use crate::failure::{Failure, OptionExt, ResultExt};
use crate::platform::{
    document_document_element, element_into_html, global_window, read_property, text_value,
    value_into_document, value_is_missing, window_as_value, window_name, window_outer_height,
    window_outer_width, window_screen_x, window_screen_y,
};

verus! {

/// The host's global window. Fails where the host has none.
pub fn window() -> (r: Result<Window, Failure>)
    ensures
        r is Err ==> r->Err_0@ == "no window found"@,
{
    global_window().custom_expect(String::from_str("no window found"))
}

/// The document of the host's global window. Fails where the host has no
/// window, or the window no document.
pub fn document() -> (r: Result<Document, Failure>)
    ensures
        r is Err ==> r->Err_0@ == "no window found"@ || r->Err_0@ == "There's not a document."@,
{
    let w = window()?;
    w.document_page()
}

/// What is owed for a read of a window's document: the document, or the
/// failure where the host raised on the read or gave nothing.
pub fn document_read<E>(read: Result<JsValue, E>) -> (r: Result<Document, Failure>)
    ensures
        read is Err ==> r is Err,
        r is Err ==> r->Err_0@ == "There's not a document."@,
{
    let value = read.custom_expect(String::from_str("There's not a document."))?;
    if value_is_missing(&value) {
        Err(Failure { message: String::from_str("There's not a document.") })
    } else {
        Ok(value_into_document(value))
    }
}

/// What a window gives access to.
pub trait MinimalWindow {
    /// The document of the window. A window that the host does not let this
    /// page read, such as one of another origin, has none.
    fn document_page(&self) -> (r: Result<Document, Failure>)
        ensures
            r is Err ==> r->Err_0@ == "There's not a document."@,
    ;

    /// The root of the window's document, as an element.
    fn document_element_el(&self) -> (r: Result<Element, Failure>)
        ensures
            r is Err ==> r->Err_0@ == "There's not a document."@ || r->Err_0@
                == "There's not a document element."@,
    ;

    /// The root of the window's document, as a styled element.
    fn document_element_html(&self) -> (r: Result<HtmlElement, Failure>)
        ensures
            r is Err ==> r->Err_0@ == "There's not a document."@ || r->Err_0@
                == "There's not document element."@ || r->Err_0@
                == "It's not possible convert a Null document_element to Html."@,
    ;

    /// The name of the window.
    fn get_name(&self) -> (r: Result<String, Failure>)
        ensures
            r is Err ==> r->Err_0@ == "There's not a name of window."@,
    ;

    /// The horizontal position of the window on the screen, as the host
    /// gives it.
    fn get_screen_x(&self) -> (r: Result<JsValue, Failure>)
        ensures
            r is Err ==> r->Err_0@ == "There's not a screen_x of window."@,
    ;

    /// The vertical position of the window on the screen, as the host gives
    /// it.
    fn get_screen_y(&self) -> (r: Result<JsValue, Failure>)
        ensures
            r is Err ==> r->Err_0@ == "There's not a screen_y of window."@,
    ;

    /// The outer width of the window, as the host gives it.
    fn get_outer_width(&self) -> (r: Result<JsValue, Failure>)
        ensures
            r is Err ==> r->Err_0@ == "There's not an outer_width of window."@,
    ;

    /// The outer height of the window, as the host gives it.
    fn get_outer_height(&self) -> (r: Result<JsValue, Failure>)
        ensures
            r is Err ==> r->Err_0@ == "There's not an outer_height of window."@,
    ;
}

impl MinimalWindow for Window {
    fn document_page(&self) -> (r: Result<Document, Failure>) {
        let key = text_value("document");
        document_read(read_property(window_as_value(self), &key))
    }

    fn document_element_el(&self) -> (r: Result<Element, Failure>) {
        let page = self.document_page()?;
        document_document_element(&page).custom_expect(
            String::from_str("There's not a document element."),
        )
    }

    fn document_element_html(&self) -> (r: Result<HtmlElement, Failure>) {
        let page = self.document_page()?;
        let root = page.document_element_el()?;
        element_into_html(root).custom_expect(
            String::from_str("It's not possible convert a Null document_element to Html."),
        )
    }

    fn get_name(&self) -> (r: Result<String, Failure>) {
        window_name(self).custom_expect(String::from_str("There's not a name of window."))
    }

    fn get_screen_x(&self) -> (r: Result<JsValue, Failure>) {
        window_screen_x(self).custom_expect(String::from_str("There's not a screen_x of window."))
    }

    fn get_screen_y(&self) -> (r: Result<JsValue, Failure>) {
        window_screen_y(self).custom_expect(String::from_str("There's not a screen_y of window."))
    }

    fn get_outer_width(&self) -> (r: Result<JsValue, Failure>) {
        window_outer_width(self).custom_expect(
            String::from_str("There's not an outer_width of window."),
        )
    }

    fn get_outer_height(&self) -> (r: Result<JsValue, Failure>) {
        window_outer_height(self).custom_expect(
            String::from_str("There's not an outer_height of window."),
        )
    }
}

} // verus!
