//! What a styled element gives access to: its inline style and the element
//! that its offsets are measured from.

use vstd::prelude::*;
use vstd::string::*;
use web_sys::{Element, HtmlElement};
use crate::element::{not_html, MinimalElement};
use crate::failure::{diagnostic, Failure, OptionExt, ResultExt};
use crate::platform::{
    element_clone, html_as_element, html_offset_parent, html_style, style_css_text,
    style_get_property_value, style_remove_property, style_set_css_text, style_set_property,
};

verus! {

/// What a styled element gives access to.
pub trait MinimalHtml {
    /// The same node as an element. Every styled element is an element, so
    /// this never fails.
    fn to_el(&self) -> (r: Result<Element, Failure>)
        ensures
            r is Ok,
    ;

    /// The element that the offsets of this one are measured from.
    fn offset_parent_el(&self) -> (r: Result<Element, Failure>)
        ensures
            r is Err ==> r->Err_0@ == "No offset parent found"@,
    ;

    /// The element that the offsets of this one are measured from, as a
    /// styled element.
    fn offset_parent_html(&self) -> (r: Result<HtmlElement, Failure>)
        ensures
            r is Err ==> r->Err_0@ == "No offset parent found"@ || r->Err_0@ == not_html(),
    ;

    /// Sets the inline style property `property` to `value`.
    fn set_prop(&self, property: &str, value: &str) -> (r: Result<(), Failure>)
        ensures
            r is Err ==> r->Err_0@ == "There's been a problem with setting property value : "@
                + value@,
    ;

    /// The value of the inline style property `property`. A property that is
    /// not set is no failure: the host gives the empty string for it.
    fn get_prop(&self, property: &str) -> (r: Result<String, Failure>)
        ensures
            r is Err ==> r->Err_0@ == "There's been a problem with get the property value : "@
                + property@,
    ;

    /// Removes the inline style property `value`: the value it had.
    fn remove_prop(&self, value: &str) -> (r: Result<String, Failure>)
        ensures
            r is Err ==> r->Err_0@ == "It's not possible remove this property : "@ + value@,
    ;

    /// Replaces the whole inline style by the text `value`.
    fn set_css(&self, value: &str);

    /// The whole inline style as text.
    fn get_css(&self) -> String;
}

impl MinimalHtml for HtmlElement {
    fn to_el(&self) -> (r: Result<Element, Failure>) {
        Ok(element_clone(html_as_element(self)))
    }

    fn offset_parent_el(&self) -> (r: Result<Element, Failure>) {
        html_offset_parent(self).custom_expect(String::from_str("No offset parent found"))
    }

    fn offset_parent_html(&self) -> (r: Result<HtmlElement, Failure>) {
        let found = self.offset_parent_el()?;
        found.to_html()
    }

    fn set_prop(&self, property: &str, value: &str) -> (r: Result<(), Failure>) {
        let msg = diagnostic("There's been a problem with setting property value : ", value);
        style_set_property(&html_style(self), property, value).custom_expect(msg)
    }

    fn get_prop(&self, property: &str) -> (r: Result<String, Failure>) {
        let msg = diagnostic("There's been a problem with get the property value : ", property);
        style_get_property_value(&html_style(self), property).custom_expect(msg)
    }

    fn remove_prop(&self, value: &str) -> (r: Result<String, Failure>) {
        let msg = diagnostic("It's not possible remove this property : ", value);
        style_remove_property(&html_style(self), value).custom_expect(msg)
    }

    fn set_css(&self, value: &str) {
        style_set_css_text(&html_style(self), value)
    }

    fn get_css(&self) -> String {
        style_css_text(&html_style(self))
    }
}

} // verus!
