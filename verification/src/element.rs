//! What an element gives access to: its class list, its neighbours in the
//! tree, its attributes and its content.

use vstd::prelude::*;
use vstd::string::*;
use wasm_bindgen::JsValue;
use web_sys::{Attr, Element, HtmlElement, HtmlSlotElement, Node, NodeList};
use crate::class_names::{
    added, changed, class_edit, has_class, lemma_present_after_add, removed, toggled, ClassChange,
    ClassLists,
};
use crate::failure::{
    diagnostic, is_match_or, require_match, require_written, Failure, OptionExt, ResultExt,
};
use crate::node::{node_not_element, node_not_html, MinimalNode};
use crate::text::{lemma_empty_occurs, occurs_in};
use crate::platform::{
    element_as_value, element_assigned_slot, element_clone, element_closest,
    element_first_element_child, element_get_attribute, element_get_attribute_node,
    element_get_attribute_ns, element_insert_adjacent_element, element_into_html,
    element_last_element_child, element_matches, element_namespace_uri,
    element_next_element_sibling, element_prefix, element_previous_element_sibling,
    element_query_selector, element_query_selector_all, element_remove_attribute,
    element_toggle_attribute, node_append_child, node_first_child,
    node_last_child, node_node_value, node_parent_element, node_previous_sibling,
    node_text_content, read_property, text_value, value_as_text, write_property,
};

verus! {

/// The diagnostic of a coercion from element to styled element that the host
/// refused.
pub open spec fn not_html() -> Seq<char> {
    "It's not possible convert a Null Element to Html"@
}

/// The diagnostic for a class name that the host did not let be read.
pub open spec fn class_unreadable() -> Seq<char> {
    "It's not possible read the class name"@
}

/// The diagnostic for a class name that is no text, as the host keeps it
/// for the elements of the SVG namespace.
pub open spec fn class_not_text() -> Seq<char> {
    "The class name is not a text"@
}

/// The diagnostic for a class name that the host did not take.
pub open spec fn class_unwritable() -> Seq<char> {
    "It's not possible set the class name"@
}

/// `msg` is one of the diagnostics of a change to a class list.
pub open spec fn is_class_failure(msg: Seq<char>) -> bool {
    msg == class_unreadable() || msg == class_not_text() || msg == class_unwritable()
}

/// What is owed for a read of an element's class name: its text, or the
/// failure where the host raised on the read or gave no text.
pub fn class_name_read<E>(read: Result<JsValue, E>) -> (r: Result<String, Failure>)
    ensures
        read is Err ==> r is Err && r->Err_0@ == class_unreadable(),
        r is Err ==> r->Err_0@ == class_unreadable() || r->Err_0@ == class_not_text(),
{
    let value = read.custom_expect(String::from_str("It's not possible read the class name"))?;
    value_as_text(&value).custom_expect(String::from_str("The class name is not a text"))
}

/// The class list of `element` as the host gives it.
fn read_class_name(element: &Element) -> (r: Result<String, Failure>)
    ensures
        r is Err ==> r->Err_0@ == class_unreadable() || r->Err_0@ == class_not_text(),
{
    let key = text_value("className");
    class_name_read(read_property(element_as_value(element), &key))
}

/// Hands `names` to the host as the class list of `element`.
fn write_class_name(element: &Element, names: &str) -> (r: Result<(), Failure>)
    ensures
        r is Err ==> r->Err_0@ == class_unwritable(),
{
    let key = text_value("className");
    let value = text_value(names);
    require_written(
        write_property(element_as_value(element), &key, &value),
        String::from_str("It's not possible set the class name"),
    )
}

/// Makes `change` to the class list of `element` for the class `value`: reads
/// the list, and writes the edited list back unless the element is in the
/// wanted state already. Gives the list as it was read and as it was left.
pub fn change_class(element: &Element, value: &str, change: ClassChange) -> (r: Result<
    ClassLists,
    Failure,
>)
    ensures
        r is Ok ==> r->Ok_0.after@ == changed(r->Ok_0.before@, value@, change),
        r is Err ==> is_class_failure(r->Err_0@),
{
    let names = read_class_name(element)?;
    match class_edit(names.as_str(), value, change) {
        Some(next) => {
            write_class_name(element, next.as_str())?;
            Ok(ClassLists { before: names, after: next })
        },
        None => {
            let same = names.clone();
            Ok(ClassLists { before: names, after: same })
        },
    }
}

/// What is owed for the search below an element by the selector `value`: the
/// element that matched, or the failure that tells a selector the host
/// rejected from one without a match.
pub fn selected_below<T, E>(outcome: Result<Option<T>, E>, value: &str) -> (r: Result<T, Failure>)
    ensures
        is_match_or(r, outcome, "No element found for : "@ + value@, "there's been a problem"@),
{
    require_match(
        outcome,
        diagnostic("No element found for : ", value),
        String::from_str("there's been a problem"),
    )
}

/// What is owed for the search of an element's ancestors: the nearest that
/// matched, or the failure that tells a selector the host rejected from one
/// without a match.
pub fn closest_match<T, E>(outcome: Result<Option<T>, E>) -> (r: Result<T, Failure>)
    ensures
        is_match_or(r, outcome, "No closest element found"@, "There's been a problem"@),
{
    require_match(
        outcome,
        String::from_str("No closest element found"),
        String::from_str("There's been a problem"),
    )
}

/// What is owed for an insertion beside an element: the element inserted, or
/// the failure that tells a position the host rejected from an insertion that
/// gave no element.
pub fn placed_beside<T, E>(outcome: Result<Option<T>, E>) -> (r: Result<T, Failure>)
    ensures
        is_match_or(
            r,
            outcome,
            "It has not been possible insert element"@,
            "There's been a problem"@,
        ),
{
    require_match(
        outcome,
        String::from_str("It has not been possible insert element"),
        String::from_str("There's been a problem"),
    )
}

/// What an element gives access to.
pub trait MinimalElement {
    /// The same node as a styled element.
    fn to_html(&self) -> (r: Result<HtmlElement, Failure>)
        ensures
            r is Err ==> r->Err_0@ == not_html(),
    ;

    /// Whether `value` occurs in the class list of the element: the test for
    /// a substring on the class list that the host gives. The empty name
    /// occurs in every class list.
    fn has_class(&self, value: &str) -> (r: Result<bool, Failure>)
        ensures
            r is Ok && value@.len() == 0 ==> r->Ok_0,
            r is Err ==> r->Err_0@ == class_unreadable() || r->Err_0@ == class_not_text(),
    ;

    /// Adds `value` to the class list of the element, unless it occurs there.
    /// Gives the list as it was and as it is left, in which `value` occurs.
    fn add_class(&self, value: &str) -> (r: Result<ClassLists, Failure>)
        ensures
            r is Ok ==> r->Ok_0.after@ == added(r->Ok_0.before@, value@),
            r is Ok ==> occurs_in(r->Ok_0.after@, value@),
            r is Err ==> is_class_failure(r->Err_0@),
    ;

    /// Removes `value` from the class list of the element, where it occurs
    /// there. Gives the list as it was and as it is left.
    fn remove_class(&self, value: &str) -> (r: Result<ClassLists, Failure>)
        ensures
            r is Ok ==> r->Ok_0.after@ == removed(r->Ok_0.before@, value@),
            r is Err ==> is_class_failure(r->Err_0@),
    ;

    /// Removes `value` from the class list of the element where it occurs
    /// there, and adds it where it does not. Gives the list as it was and as
    /// it is left.
    fn toggle_class(&self, value: &str) -> (r: Result<ClassLists, Failure>)
        ensures
            r is Ok ==> r->Ok_0.after@ == toggled(r->Ok_0.before@, value@),
            r is Err ==> is_class_failure(r->Err_0@),
    ;

    /// The namespace of the element.
    fn get_namespace_uri(&self) -> (r: Result<String, Failure>)
        ensures
            r is Err ==> r->Err_0@ == "No namespace found"@,
    ;

    /// The namespace prefix of the element.
    fn get_pref(&self) -> (r: Result<String, Failure>)
        ensures
            r is Err ==> r->Err_0@ == "No prefix found"@,
    ;

    /// The slot the element is assigned to.
    fn get_assigned_slot(&self) -> (r: Result<HtmlSlotElement, Failure>)
        ensures
            r is Err ==> r->Err_0@ == "No assigned slot found"@,
    ;

    /// The list of all nodes below the element that match the selector
    /// `value`. An empty list is no failure.
    fn query_selector_list(&self, value: &str) -> (r: Result<NodeList, Failure>)
        ensures
            r is Err ==> r->Err_0@ == "No element found"@,
    ;

    /// The first element below this one that matches the selector `value`. A
    /// selector that the host rejects and a selector without a match fail
    /// with different diagnostics.
    fn query_selector_el(&self, value: &str) -> (r: Result<Element, Failure>)
        ensures
            r is Err ==> r->Err_0@ == "No element found for : "@ + value@ || r->Err_0@
                == "there's been a problem"@,
    ;

    /// The first element below this one that matches the selector `value`, as
    /// a styled element.
    fn query_selector_html(&self, value: &str) -> (r: Result<HtmlElement, Failure>)
        ensures
            r is Err ==> r->Err_0@ == "No element found for : "@ + value@ || r->Err_0@
                == "there's been a problem"@ || r->Err_0@ == not_html(),
    ;

    /// The parent of the element.
    fn parent_element_el(&self) -> (r: Result<Element, Failure>)
        ensures
            r is Err ==> r->Err_0@ == "No parent element found"@,
    ;

    /// The parent of the element, as a styled element.
    fn parent_element_html(&self) -> (r: Result<HtmlElement, Failure>)
        ensures
            r is Err ==> r->Err_0@ == "No parent element found"@ || r->Err_0@ == not_html(),
    ;

    /// The first child node of the element, as an element.
    fn first_child_el(&self) -> (r: Result<Element, Failure>)
        ensures
            r is Err ==> r->Err_0@ == "No first child found"@ || r->Err_0@ == node_not_element(),
    ;

    /// The first child node of the element, as a styled element.
    fn first_child_html(&self) -> (r: Result<HtmlElement, Failure>)
        ensures
            r is Err ==> r->Err_0@ == "No first child found"@ || r->Err_0@ == node_not_html(),
    ;

    /// The last child node of the element, as an element.
    fn last_child_el(&self) -> (r: Result<Element, Failure>)
        ensures
            r is Err ==> r->Err_0@ == "No last child found"@ || r->Err_0@ == node_not_element(),
    ;

    /// The last child node of the element, as a styled element.
    fn last_child_html(&self) -> (r: Result<HtmlElement, Failure>)
        ensures
            r is Err ==> r->Err_0@ == "No last child found"@ || r->Err_0@ == node_not_html(),
    ;

    /// The node before the element among its siblings, as an element.
    fn prev_sibling_el(&self) -> (r: Result<Element, Failure>)
        ensures
            r is Err ==> r->Err_0@ == "No prev sibling found"@ || r->Err_0@ == node_not_element(),
    ;

    /// The node before the element among its siblings, as a styled element.
    fn prev_sibling_html(&self) -> (r: Result<HtmlElement, Failure>)
        ensures
            r is Err ==> r->Err_0@ == "No prev element found"@ || r->Err_0@ == node_not_html(),
    ;

    /// The element before this one among its siblings.
    fn prev_element_sibling_el(&self) -> (r: Result<Element, Failure>)
        ensures
            r is Err ==> r->Err_0@ == "No prev sibling found"@,
    ;

    /// The element after this one among its siblings.
    fn next_element_sibling_el(&self) -> (r: Result<Element, Failure>)
        ensures
            r is Err ==> r->Err_0@ == "No next sibling found"@,
    ;

    /// The first child of the element that is an element.
    fn first_element_child_el(&self) -> (r: Result<Element, Failure>)
        ensures
            r is Err ==> r->Err_0@ == "No first child found"@,
    ;

    /// The last child of the element that is an element.
    fn last_element_child_el(&self) -> (r: Result<Element, Failure>)
        ensures
            r is Err ==> r->Err_0@ == "No last child found"@,
    ;

    /// The element before this one among its siblings, as a styled element.
    fn prev_element_sibling_html(&self) -> (r: Result<HtmlElement, Failure>)
        ensures
            r is Err ==> r->Err_0@ == "No prev sibling found"@ || r->Err_0@ == not_html(),
    ;

    /// The element after this one among its siblings, as a styled element.
    fn next_element_sibling_html(&self) -> (r: Result<HtmlElement, Failure>)
        ensures
            r is Err ==> r->Err_0@ == "No next sibling found"@ || r->Err_0@ == not_html(),
    ;

    /// The first child of the element that is an element, as a styled
    /// element.
    fn first_element_child_html(&self) -> (r: Result<HtmlElement, Failure>)
        ensures
            r is Err ==> r->Err_0@ == "No first child found"@ || r->Err_0@ == not_html(),
    ;

    /// The last child of the element that is an element, as a styled element.
    fn last_element_child_html(&self) -> (r: Result<HtmlElement, Failure>)
        ensures
            r is Err ==> r->Err_0@ == "No last child found"@ || r->Err_0@ == not_html(),
    ;

    /// The nearest of the element and its ancestors that matches the selector
    /// `value`. A selector that the host rejects and a selector without a
    /// match fail with different diagnostics.
    fn closest_el(&self, value: &str) -> (r: Result<Element, Failure>)
        ensures
            r is Err ==> r->Err_0@ == "No closest element found"@ || r->Err_0@
                == "There's been a problem"@,
    ;

    /// The nearest of the element and its ancestors that matches the selector
    /// `value`, as a styled element.
    fn closest_html(&self, value: &str) -> (r: Result<HtmlElement, Failure>)
        ensures
            r is Err ==> r->Err_0@ == "No closest element found"@ || r->Err_0@
                == "There's been a problem"@ || r->Err_0@ == not_html(),
    ;

    /// The value of the attribute `value`.
    fn get_attr(&self, value: &str) -> (r: Result<String, Failure>)
        ensures
            r is Err ==> r->Err_0@ == "No attribute found for : "@ + value@,
    ;

    /// The node of the attribute `value`.
    fn get_attr_node(&self, value: &str) -> (r: Result<Attr, Failure>)
        ensures
            r is Err ==> r->Err_0@ == "No attribute node found for : "@ + value@,
    ;

    /// The value of the attribute `localname` in `namespace`.
    fn get_attr_ns(&self, namespace: &str, localname: &str) -> (r: Result<String, Failure>)
        ensures
            r is Err ==> r->Err_0@ == "There's been an error with get_attribute_namespace"@,
    ;

    /// Puts `element` beside this one, at the position that `where_` names. A
    /// position that the host rejects and an insertion that gives no element
    /// fail with different diagnostics.
    fn insert_adj_el(&self, where_: &str, element: Element) -> (r: Result<Element, Failure>)
        ensures
            r is Err ==> r->Err_0@ == "It has not been possible insert element"@ || r->Err_0@
                == "There's been a problem"@,
    ;

    /// Toggles the attribute `value`: whether the element has it afterwards.
    fn toggle_attr(&self, value: &str) -> (r: Result<bool, Failure>)
        ensures
            r is Err ==> r->Err_0@ == "It's not possible toggle this attribute : "@ + value@,
    ;

    /// Removes the attribute `value`.
    fn remove_attr(&self, value: &str) -> (r: Result<(), Failure>)
        ensures
            r is Err ==> r->Err_0@ == "It's not possible remove attribute : "@ + value@,
    ;

    /// Whether the element matches the selector `value`. Only a selector that
    /// the host rejects is a failure.
    fn has_match(&self, value: &str) -> (r: Result<bool, Failure>)
        ensures
            r is Err ==> r->Err_0@ == "There's not a match with value: "@ + value@,
    ;

    /// The value of the node that the element is.
    fn get_node_value(&self) -> (r: Result<String, Failure>)
        ensures
            r is Err ==> r->Err_0@ == "No node value found"@,
    ;

    /// The text below the element.
    fn get_text_content(&self) -> (r: Result<String, Failure>)
        ensures
            r is Err ==> r->Err_0@ == "No text content found"@,
    ;

    /// Appends `node` as the last child of the element: the node appended.
    fn app_child(&self, node: Node) -> (r: Result<Node, Failure>)
        ensures
            r is Err ==> r->Err_0@ == "Failed to append child"@,
    ;
}

impl MinimalElement for Element {
    fn to_html(&self) -> (r: Result<HtmlElement, Failure>) {
        element_into_html(element_clone(self)).custom_expect(
            String::from_str("It's not possible convert a Null Element to Html"),
        )
    }

    fn has_class(&self, value: &str) -> (r: Result<bool, Failure>) {
        let names = read_class_name(self)?;
        proof {
            lemma_empty_occurs(names@);
            if value@.len() == 0 {
                assert(value@ =~= Seq::<char>::empty());
            }
        }
        Ok(has_class(names.as_str(), value))
    }

    fn add_class(&self, value: &str) -> (r: Result<ClassLists, Failure>) {
        let lists = change_class(self, value, ClassChange::Add)?;
        proof {
            lemma_present_after_add(lists.before@, value@);
        }
        Ok(lists)
    }

    fn remove_class(&self, value: &str) -> (r: Result<ClassLists, Failure>) {
        change_class(self, value, ClassChange::Remove)
    }

    fn toggle_class(&self, value: &str) -> (r: Result<ClassLists, Failure>) {
        change_class(self, value, ClassChange::Toggle)
    }

    fn get_namespace_uri(&self) -> (r: Result<String, Failure>) {
        element_namespace_uri(self).custom_expect(String::from_str("No namespace found"))
    }

    fn get_pref(&self) -> (r: Result<String, Failure>) {
        element_prefix(self).custom_expect(String::from_str("No prefix found"))
    }

    fn get_assigned_slot(&self) -> (r: Result<HtmlSlotElement, Failure>) {
        element_assigned_slot(self).custom_expect(String::from_str("No assigned slot found"))
    }

    fn query_selector_list(&self, value: &str) -> (r: Result<NodeList, Failure>) {
        element_query_selector_all(self, value).custom_expect(
            String::from_str("No element found"),
        )
    }

    fn query_selector_el(&self, value: &str) -> (r: Result<Element, Failure>) {
        selected_below(element_query_selector(self, value), value)
    }

    fn query_selector_html(&self, value: &str) -> (r: Result<HtmlElement, Failure>) {
        let found = self.query_selector_el(value)?;
        found.to_html()
    }

    fn parent_element_el(&self) -> (r: Result<Element, Failure>) {
        node_parent_element(self).custom_expect(String::from_str("No parent element found"))
    }

    fn parent_element_html(&self) -> (r: Result<HtmlElement, Failure>) {
        let found = self.parent_element_el()?;
        found.to_html()
    }

    fn first_child_el(&self) -> (r: Result<Element, Failure>) {
        let found = node_first_child(self).custom_expect(
            String::from_str("No first child found"),
        )?;
        found.to_el()
    }

    fn first_child_html(&self) -> (r: Result<HtmlElement, Failure>) {
        let found = node_first_child(self).custom_expect(
            String::from_str("No first child found"),
        )?;
        found.to_html()
    }

    fn last_child_el(&self) -> (r: Result<Element, Failure>) {
        let found = node_last_child(self).custom_expect(String::from_str("No last child found"))?;
        found.to_el()
    }

    fn last_child_html(&self) -> (r: Result<HtmlElement, Failure>) {
        let found = node_last_child(self).custom_expect(String::from_str("No last child found"))?;
        found.to_html()
    }

    fn prev_sibling_el(&self) -> (r: Result<Element, Failure>) {
        let found = node_previous_sibling(self).custom_expect(
            String::from_str("No prev sibling found"),
        )?;
        found.to_el()
    }

    fn prev_sibling_html(&self) -> (r: Result<HtmlElement, Failure>) {
        let found = node_previous_sibling(self).custom_expect(
            String::from_str("No prev element found"),
        )?;
        found.to_html()
    }

    fn prev_element_sibling_el(&self) -> (r: Result<Element, Failure>) {
        element_previous_element_sibling(self).custom_expect(
            String::from_str("No prev sibling found"),
        )
    }

    fn next_element_sibling_el(&self) -> (r: Result<Element, Failure>) {
        element_next_element_sibling(self).custom_expect(
            String::from_str("No next sibling found"),
        )
    }

    fn first_element_child_el(&self) -> (r: Result<Element, Failure>) {
        element_first_element_child(self).custom_expect(String::from_str("No first child found"))
    }

    fn last_element_child_el(&self) -> (r: Result<Element, Failure>) {
        element_last_element_child(self).custom_expect(String::from_str("No last child found"))
    }

    fn prev_element_sibling_html(&self) -> (r: Result<HtmlElement, Failure>) {
        let found = self.prev_element_sibling_el()?;
        found.to_html()
    }

    fn next_element_sibling_html(&self) -> (r: Result<HtmlElement, Failure>) {
        let found = self.next_element_sibling_el()?;
        found.to_html()
    }

    fn first_element_child_html(&self) -> (r: Result<HtmlElement, Failure>) {
        let found = self.first_element_child_el()?;
        found.to_html()
    }

    fn last_element_child_html(&self) -> (r: Result<HtmlElement, Failure>) {
        let found = self.last_element_child_el()?;
        found.to_html()
    }

    fn closest_el(&self, value: &str) -> (r: Result<Element, Failure>) {
        closest_match(element_closest(self, value))
    }

    fn closest_html(&self, value: &str) -> (r: Result<HtmlElement, Failure>) {
        let found = self.closest_el(value)?;
        found.to_html()
    }

    fn get_attr(&self, value: &str) -> (r: Result<String, Failure>) {
        let msg = diagnostic("No attribute found for : ", value);
        element_get_attribute(self, value).custom_expect(msg)
    }

    fn get_attr_node(&self, value: &str) -> (r: Result<Attr, Failure>) {
        let msg = diagnostic("No attribute node found for : ", value);
        element_get_attribute_node(self, value).custom_expect(msg)
    }

    fn get_attr_ns(&self, namespace: &str, localname: &str) -> (r: Result<String, Failure>) {
        element_get_attribute_ns(self, namespace, localname).custom_expect(
            String::from_str("There's been an error with get_attribute_namespace"),
        )
    }

    fn insert_adj_el(&self, where_: &str, element: Element) -> (r: Result<Element, Failure>) {
        placed_beside(element_insert_adjacent_element(self, where_, &element))
    }

    fn toggle_attr(&self, value: &str) -> (r: Result<bool, Failure>) {
        let msg = diagnostic("It's not possible toggle this attribute : ", value);
        element_toggle_attribute(self, value).custom_expect(msg)
    }

    fn remove_attr(&self, value: &str) -> (r: Result<(), Failure>) {
        let msg = diagnostic("It's not possible remove attribute : ", value);
        element_remove_attribute(self, value).custom_expect(msg)
    }

    fn has_match(&self, value: &str) -> (r: Result<bool, Failure>) {
        let msg = diagnostic("There's not a match with value: ", value);
        element_matches(self, value).custom_expect(msg)
    }

    fn get_node_value(&self) -> (r: Result<String, Failure>) {
        node_node_value(self).custom_expect(String::from_str("No node value found"))
    }

    fn get_text_content(&self) -> (r: Result<String, Failure>) {
        node_text_content(self).custom_expect(String::from_str("No text content found"))
    }

    fn app_child(&self, node: Node) -> (r: Result<Node, Failure>) {
        node_append_child(self, &node).custom_expect(String::from_str("Failed to append child"))
    }
}

} // verus!
