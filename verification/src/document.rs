//! What a document gives access to: its elements by id and by selector, its
//! root, its location, and the making of new elements.

use vstd::prelude::*;
use vstd::string::*;
use web_sys::{Document, Element, HtmlElement, Location, NodeList, Window};
use crate::element::{not_html, MinimalElement};
use crate::failure::{
    diagnostic, is_match_or, require_match, require_written, Failure, OptionExt, ResultExt,
};
use crate::platform::{
    document_create_element, document_create_element_ns, document_default_view,
    document_document_element, document_get_element_by_id, document_location,
    document_as_value, document_query_selector, document_query_selector_all, document_url,
    html_as_value, location_hash, location_host, location_hostname, location_href, text_value,
    write_property,
};

verus! {

/// The diagnostic for a body that the host did not take.
pub open spec fn body_refused() -> Seq<char> {
    "It's not possible set the body"@
}

/// What is owed for the search of a document by the selector `value`: the
/// element that matched, or the failure that tells a selector the host
/// rejected from one without a match.
pub fn selected<T, E>(outcome: Result<Option<T>, E>, value: &str) -> (r: Result<T, Failure>)
    ensures
        is_match_or(
            r,
            outcome,
            "No Element with this selector found : "@ + value@,
            "It's not possible convert a Null to Element : "@ + value@,
        ),
{
    require_match(
        outcome,
        diagnostic("No Element with this selector found : ", value),
        diagnostic("It's not possible convert a Null to Element : ", value),
    )
}

/// What is owed for the search of a document by the selector `value`, where
/// a styled element is wanted: the element that matched, still to be coerced,
/// or the failure that tells a selector the host rejected from one without a
/// match.
pub fn selected_for_html<T, E>(outcome: Result<Option<T>, E>, value: &str) -> (r: Result<
    T,
    Failure,
>)
    ensures
        is_match_or(
            r,
            outcome,
            "No HtmlElement with this selector found: "@ + value@,
            "It's not possible convert a null Element to HtmlElement : "@ + value@,
        ),
{
    require_match(
        outcome,
        diagnostic("No HtmlElement with this selector found: ", value),
        diagnostic("It's not possible convert a null Element to HtmlElement : ", value),
    )
}

/// What a document gives access to.
pub trait MinimalDocument {
    /// The element with the id `value`.
    fn get_element_by_id_el(&self, value: &str) -> (r: Result<Element, Failure>)
        ensures
            r is Err ==> r->Err_0@ == "No Element found with id : "@ + value@,
    ;

    /// The element with the id `value`, as a styled element.
    fn get_element_by_id_html(&self, value: &str) -> (r: Result<HtmlElement, Failure>)
        ensures
            r is Err ==> r->Err_0@ == "No Element found with id : "@ + value@ || r->Err_0@
                == not_html(),
    ;

    /// The list of all nodes that match the selector `value`. An empty list
    /// is no failure.
    fn query_selector_list(&self, value: &str) -> (r: Result<NodeList, Failure>)
        ensures
            r is Err ==> r->Err_0@ == "There's not an element with this selector in the list: "@
                + value@,
    ;

    /// The first element that matches the selector `value`. A selector that
    /// the host rejects and a selector without a match fail with different
    /// diagnostics.
    fn query_selector_el(&self, value: &str) -> (r: Result<Element, Failure>)
        ensures
            r is Err ==> r->Err_0@ == "No Element with this selector found : "@ + value@
                || r->Err_0@ == "It's not possible convert a Null to Element : "@ + value@,
    ;

    /// The first element that matches the selector `value`, as a styled
    /// element.
    fn query_selector_html(&self, value: &str) -> (r: Result<HtmlElement, Failure>)
        ensures
            r is Err ==> r->Err_0@ == "No HtmlElement with this selector found: "@ + value@
                || r->Err_0@ == "It's not possible convert a null Element to HtmlElement : "@
                + value@ || r->Err_0@ == not_html(),
    ;

    /// The root of the document, as an element.
    fn document_element_el(&self) -> (r: Result<Element, Failure>)
        ensures
            r is Err ==> r->Err_0@ == "There's not document element."@,
    ;

    /// The root of the document, as a styled element.
    fn document_element_html(&self) -> (r: Result<HtmlElement, Failure>)
        ensures
            r is Err ==> r->Err_0@ == "There's not document element."@ || r->Err_0@ == not_html(),
    ;

    /// The address of the document.
    fn get_url(&self) -> (r: Result<String, Failure>)
        ensures
            r is Err ==> r->Err_0@ == "No url found"@,
    ;

    /// The location of the document.
    fn get_location(&self) -> (r: Result<Location, Failure>)
        ensures
            r is Err ==> r->Err_0@ == "No location found"@,
    ;

    /// The fragment of the document's location.
    fn get_hash(&self) -> (r: Result<String, Failure>)
        ensures
            r is Err ==> r->Err_0@ == "No location found"@ || r->Err_0@ == "No hash found"@,
    ;

    /// The host and port of the document's location.
    fn get_host(&self) -> (r: Result<String, Failure>)
        ensures
            r is Err ==> r->Err_0@ == "No location found"@ || r->Err_0@ == "No host found"@,
    ;

    /// The host name of the document's location.
    fn get_hostname(&self) -> (r: Result<String, Failure>)
        ensures
            r is Err ==> r->Err_0@ == "No location found"@ || r->Err_0@ == "No hostname found"@,
    ;

    /// The whole address of the document's location.
    fn get_href(&self) -> (r: Result<String, Failure>)
        ensures
            r is Err ==> r->Err_0@ == "No location found"@ || r->Err_0@ == "No href found"@,
    ;

    /// Makes `e` the body of the document. The host takes only an element
    /// that can be a body; for another it raises, which is a failure here.
    fn set_new_body(&self, e: HtmlElement) -> (r: Result<(), Failure>)
        ensures
            r is Err ==> r->Err_0@ == body_refused(),
    ;

    /// The window that shows the document.
    fn get_default_view(&self) -> (r: Result<Window, Failure>)
        ensures
            r is Err ==> r->Err_0@ == "There's not a window"@,
    ;

    /// A new element with the tag `local_name`.
    fn create_el(&self, local_name: &str) -> (r: Result<Element, Failure>)
        ensures
            r is Err ==> r->Err_0@ == "There's been an error, can't create element"@,
    ;

    /// A new element with the tag `local_name`, as a styled element.
    fn create_html(&self, local_name: &str) -> (r: Result<HtmlElement, Failure>)
        ensures
            r is Err ==> r->Err_0@ == "There's been an error, can't create element"@ || r->Err_0@
                == not_html(),
    ;

    /// A new element with the qualified name `qualified_name` in `namespace`.
    fn create_el_ns(&self, namespace: &str, qualified_name: &str) -> (r: Result<Element, Failure>)
        ensures
            r is Err ==> r->Err_0@ == "There's been an error, can't create element"@,
    ;

    /// A new element with the qualified name `qualified_name` in `namespace`,
    /// as a styled element.
    fn create_html_ns(&self, namespace: &str, qualified_name: &str) -> (r: Result<
        HtmlElement,
        Failure,
    >)
        ensures
            r is Err ==> r->Err_0@ == "There's been an error, can't create element"@ || r->Err_0@
                == not_html(),
    ;
}

impl MinimalDocument for Document {
    fn get_element_by_id_el(&self, value: &str) -> (r: Result<Element, Failure>) {
        let msg = diagnostic("No Element found with id : ", value);
        document_get_element_by_id(self, value).custom_expect(msg)
    }

    fn get_element_by_id_html(&self, value: &str) -> (r: Result<HtmlElement, Failure>) {
        let found = self.get_element_by_id_el(value)?;
        found.to_html()
    }

    fn query_selector_list(&self, value: &str) -> (r: Result<NodeList, Failure>) {
        let msg = diagnostic("There's not an element with this selector in the list: ", value);
        document_query_selector_all(self, value).custom_expect(msg)
    }

    fn query_selector_el(&self, value: &str) -> (r: Result<Element, Failure>) {
        selected(document_query_selector(self, value), value)
    }

    fn query_selector_html(&self, value: &str) -> (r: Result<HtmlElement, Failure>) {
        let found = selected_for_html(document_query_selector(self, value), value)?;
        found.to_html()
    }

    fn document_element_el(&self) -> (r: Result<Element, Failure>) {
        document_document_element(self).custom_expect(
            String::from_str("There's not document element."),
        )
    }

    fn document_element_html(&self) -> (r: Result<HtmlElement, Failure>) {
        let root = self.document_element_el()?;
        root.to_html()
    }

    fn get_url(&self) -> (r: Result<String, Failure>) {
        document_url(self).custom_expect(String::from_str("No url found"))
    }

    fn get_location(&self) -> (r: Result<Location, Failure>) {
        document_location(self).custom_expect(String::from_str("No location found"))
    }

    fn get_hash(&self) -> (r: Result<String, Failure>) {
        let location = self.get_location()?;
        location_hash(&location).custom_expect(String::from_str("No hash found"))
    }

    fn get_host(&self) -> (r: Result<String, Failure>) {
        let location = self.get_location()?;
        location_host(&location).custom_expect(String::from_str("No host found"))
    }

    fn get_hostname(&self) -> (r: Result<String, Failure>) {
        let location = self.get_location()?;
        location_hostname(&location).custom_expect(String::from_str("No hostname found"))
    }

    fn get_href(&self) -> (r: Result<String, Failure>) {
        let location = self.get_location()?;
        location_href(&location).custom_expect(String::from_str("No href found"))
    }

    fn set_new_body(&self, e: HtmlElement) -> (r: Result<(), Failure>) {
        let key = text_value("body");
        require_written(
            write_property(document_as_value(self), &key, html_as_value(&e)),
            String::from_str("It's not possible set the body"),
        )
    }

    fn get_default_view(&self) -> (r: Result<Window, Failure>) {
        document_default_view(self).custom_expect(String::from_str("There's not a window"))
    }

    fn create_el(&self, local_name: &str) -> (r: Result<Element, Failure>) {
        document_create_element(self, local_name).custom_expect(
            String::from_str("There's been an error, can't create element"),
        )
    }

    fn create_html(&self, local_name: &str) -> (r: Result<HtmlElement, Failure>) {
        let made = self.create_el(local_name)?;
        made.to_html()
    }

    fn create_el_ns(&self, namespace: &str, qualified_name: &str) -> (r: Result<
        Element,
        Failure,
    >) {
        document_create_element_ns(self, namespace, qualified_name).custom_expect(
            String::from_str("There's been an error, can't create element"),
        )
    }

    fn create_html_ns(&self, namespace: &str, qualified_name: &str) -> (r: Result<
        HtmlElement,
        Failure,
    >) {
        let made = self.create_el_ns(namespace, qualified_name)?;
        made.to_html()
    }
}

} // verus!
