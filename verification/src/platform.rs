//! The host platform: its handle types, and one private function for each
//! platform operation this crate calls.
//!
//! A handle is opaque here. Nothing below promises anything about what the
//! host returns: each function only makes its call. Where the binding of an
//! operation cannot hand back what the host raises, and the host can raise on
//! it, the operation is made through `js_sys::Reflect`, whose bindings can.
//! The host exists where the crate runs inside a browser; elsewhere the
//! bindings have nothing to reach and do not return.

use vstd::prelude::*;
use wasm_bindgen::JsCast;
use js_sys::Reflect;
use wasm_bindgen::JsValue;
use web_sys::{
    Attr, CssStyleDeclaration, Document, Element, HtmlElement, HtmlSlotElement, Location, Node,
    NodeList, Window,
};

verus! {

/// `web_sys::Window`: a handle to the host's global window.
#[verifier::external_type_specification]
#[verifier::external_body]
pub struct ExWindow(web_sys::Window);

/// `web_sys::Document`: a handle to a document.
#[verifier::external_type_specification]
#[verifier::external_body]
pub struct ExDocument(web_sys::Document);

/// `web_sys::Element`: a handle to a node with attributes and a class list.
#[verifier::external_type_specification]
#[verifier::external_body]
pub struct ExElement(web_sys::Element);

/// `web_sys::HtmlElement`: a handle to an element with inline style.
#[verifier::external_type_specification]
#[verifier::external_body]
pub struct ExHtmlElement(web_sys::HtmlElement);

/// `web_sys::HtmlSlotElement`: a handle to a slot element.
#[verifier::external_type_specification]
#[verifier::external_body]
pub struct ExHtmlSlotElement(web_sys::HtmlSlotElement);

/// `web_sys::NodeList`: a handle to the list of nodes that a selector matched.
#[verifier::external_type_specification]
#[verifier::external_body]
pub struct ExNodeList(web_sys::NodeList);

/// `web_sys::Node`: a handle to a node of the document tree.
#[verifier::external_type_specification]
#[verifier::external_body]
pub struct ExNode(web_sys::Node);

/// `web_sys::Location`: a handle to the navigation target of a document.
#[verifier::external_type_specification]
#[verifier::external_body]
pub struct ExLocation(web_sys::Location);

/// `web_sys::Attr`: a handle to an attribute node.
#[verifier::external_type_specification]
#[verifier::external_body]
pub struct ExAttr(web_sys::Attr);

/// `web_sys::CssStyleDeclaration`: a handle to the inline style of an element.
#[verifier::external_type_specification]
#[verifier::external_body]
pub struct ExCssStyleDeclaration(web_sys::CssStyleDeclaration);

/// `wasm_bindgen::JsValue`: a handle to any value of the host.
#[verifier::external_type_specification]
#[verifier::external_body]
pub struct ExJsValue(wasm_bindgen::JsValue);

/// Calls `web_sys::window`. Nothing is claimed of what the host returns.
#[verifier::external_body]
pub(crate) fn global_window() -> Option<Window> {
    web_sys::window()
}

/// Calls `Window::name`. Nothing is claimed of what the host returns.
#[verifier::external_body]
pub(crate) fn window_name(w: &Window) -> Result<String, JsValue> {
    w.name()
}

/// Calls `Window::screen_x`. Nothing is claimed of what the host returns.
#[verifier::external_body]
pub(crate) fn window_screen_x(w: &Window) -> Result<JsValue, JsValue> {
    w.screen_x()
}

/// Calls `Window::screen_y`. Nothing is claimed of what the host returns.
#[verifier::external_body]
pub(crate) fn window_screen_y(w: &Window) -> Result<JsValue, JsValue> {
    w.screen_y()
}

/// Calls `Window::outer_width`. Nothing is claimed of what the host returns.
#[verifier::external_body]
pub(crate) fn window_outer_width(w: &Window) -> Result<JsValue, JsValue> {
    w.outer_width()
}

/// Calls `Window::outer_height`. Nothing is claimed of what the host returns.
#[verifier::external_body]
pub(crate) fn window_outer_height(w: &Window) -> Result<JsValue, JsValue> {
    w.outer_height()
}

/// Calls `Document::get_element_by_id`. Nothing is claimed of what the host returns.
#[verifier::external_body]
pub(crate) fn document_get_element_by_id(d: &Document, id: &str) -> Option<Element> {
    d.get_element_by_id(id)
}

/// Calls `Document::query_selector`. Nothing is claimed of what the host returns.
#[verifier::external_body]
pub(crate) fn document_query_selector(d: &Document, selectors: &str) -> Result<Option<Element>, JsValue> {
    d.query_selector(selectors)
}

/// Calls `Document::query_selector_all`. Nothing is claimed of what the host returns.
#[verifier::external_body]
pub(crate) fn document_query_selector_all(d: &Document, selectors: &str) -> Result<NodeList, JsValue> {
    d.query_selector_all(selectors)
}

/// Calls `Document::document_element`. Nothing is claimed of what the host returns.
#[verifier::external_body]
pub(crate) fn document_document_element(d: &Document) -> Option<Element> {
    d.document_element()
}

/// Calls `Document::url`. Nothing is claimed of what the host returns.
#[verifier::external_body]
pub(crate) fn document_url(d: &Document) -> Result<String, JsValue> {
    d.url()
}

/// Calls `Document::location`. Nothing is claimed of what the host returns.
#[verifier::external_body]
pub(crate) fn document_location(d: &Document) -> Option<Location> {
    d.location()
}

/// Calls `Document::default_view`. Nothing is claimed of what the host returns.
#[verifier::external_body]
pub(crate) fn document_default_view(d: &Document) -> Option<Window> {
    d.default_view()
}

/// Calls `Document::create_element`. Nothing is claimed of what the host returns.
#[verifier::external_body]
pub(crate) fn document_create_element(d: &Document, local_name: &str) -> Result<Element, JsValue> {
    d.create_element(local_name)
}

/// Calls `Document::create_element_ns` with the namespace given. Nothing is claimed of what the host returns.
#[verifier::external_body]
pub(crate) fn document_create_element_ns(d: &Document, namespace: &str, qualified_name: &str) -> Result<Element, JsValue> {
    d.create_element_ns(Some(namespace), qualified_name)
}

/// Calls `Location::hash`. Nothing is claimed of what the host returns.
#[verifier::external_body]
pub(crate) fn location_hash(l: &Location) -> Result<String, JsValue> {
    l.hash()
}

/// Calls `Location::host`. Nothing is claimed of what the host returns.
#[verifier::external_body]
pub(crate) fn location_host(l: &Location) -> Result<String, JsValue> {
    l.host()
}

/// Calls `Location::hostname`. Nothing is claimed of what the host returns.
#[verifier::external_body]
pub(crate) fn location_hostname(l: &Location) -> Result<String, JsValue> {
    l.hostname()
}

/// Calls `Location::href`. Nothing is claimed of what the host returns.
#[verifier::external_body]
pub(crate) fn location_href(l: &Location) -> Result<String, JsValue> {
    l.href()
}

/// Calls `Element::query_selector`. Nothing is claimed of what the host returns.
#[verifier::external_body]
pub(crate) fn element_query_selector(e: &Element, selectors: &str) -> Result<Option<Element>, JsValue> {
    e.query_selector(selectors)
}

/// Calls `Element::query_selector_all`. Nothing is claimed of what the host returns.
#[verifier::external_body]
pub(crate) fn element_query_selector_all(e: &Element, selectors: &str) -> Result<NodeList, JsValue> {
    e.query_selector_all(selectors)
}

/// Calls `Element::closest`. Nothing is claimed of what the host returns.
#[verifier::external_body]
pub(crate) fn element_closest(e: &Element, selector: &str) -> Result<Option<Element>, JsValue> {
    e.closest(selector)
}

/// Calls `Element::namespace_uri`. Nothing is claimed of what the host returns.
#[verifier::external_body]
pub(crate) fn element_namespace_uri(e: &Element) -> Option<String> {
    e.namespace_uri()
}

/// Calls `Element::assigned_slot`. Nothing is claimed of what the host returns.
#[verifier::external_body]
pub(crate) fn element_assigned_slot(e: &Element) -> Option<HtmlSlotElement> {
    e.assigned_slot()
}

/// Calls `Element::first_element_child`. Nothing is claimed of what the host returns.
#[verifier::external_body]
pub(crate) fn element_first_element_child(e: &Element) -> Option<Element> {
    e.first_element_child()
}

/// Calls `Element::last_element_child`. Nothing is claimed of what the host returns.
#[verifier::external_body]
pub(crate) fn element_last_element_child(e: &Element) -> Option<Element> {
    e.last_element_child()
}

/// Calls `Element::next_element_sibling`. Nothing is claimed of what the host returns.
#[verifier::external_body]
pub(crate) fn element_next_element_sibling(e: &Element) -> Option<Element> {
    e.next_element_sibling()
}

/// Calls `Element::previous_element_sibling`. Nothing is claimed of what the host returns.
#[verifier::external_body]
pub(crate) fn element_previous_element_sibling(e: &Element) -> Option<Element> {
    e.previous_element_sibling()
}

/// Calls `Element::get_attribute_node`. Nothing is claimed of what the host returns.
#[verifier::external_body]
pub(crate) fn element_get_attribute_node(e: &Element, name: &str) -> Option<Attr> {
    e.get_attribute_node(name)
}

/// Calls `Element::get_attribute`. Nothing is claimed of what the host returns.
#[verifier::external_body]
pub(crate) fn element_get_attribute(e: &Element, name: &str) -> Option<String> {
    e.get_attribute(name)
}

/// Calls `Element::get_attribute_ns` with the namespace given. Nothing is claimed of what the host returns.
#[verifier::external_body]
pub(crate) fn element_get_attribute_ns(e: &Element, namespace: &str, local_name: &str) -> Option<String> {
    e.get_attribute_ns(Some(namespace), local_name)
}

/// Calls `Element::toggle_attribute`. Nothing is claimed of what the host returns.
#[verifier::external_body]
pub(crate) fn element_toggle_attribute(e: &Element, name: &str) -> Result<bool, JsValue> {
    e.toggle_attribute(name)
}

/// Calls `Element::prefix`. Nothing is claimed of what the host returns.
#[verifier::external_body]
pub(crate) fn element_prefix(e: &Element) -> Option<String> {
    e.prefix()
}

/// Calls `Element::insert_adjacent_element`. Nothing is claimed of what the host returns.
#[verifier::external_body]
pub(crate) fn element_insert_adjacent_element(e: &Element, position: &str, element: &Element) -> Result<Option<Element>, JsValue> {
    e.insert_adjacent_element(position, element)
}

/// Calls `Element::remove_attribute`. Nothing is claimed of what the host returns.
#[verifier::external_body]
pub(crate) fn element_remove_attribute(e: &Element, name: &str) -> Result<(), JsValue> {
    e.remove_attribute(name)
}

/// Calls `Element::matches`. Nothing is claimed of what the host returns.
#[verifier::external_body]
pub(crate) fn element_matches(e: &Element, selector: &str) -> Result<bool, JsValue> {
    e.matches(selector)
}

/// Calls `Node::parent_element` on the node that the element is. Nothing is claimed of what the host returns.
#[verifier::external_body]
pub(crate) fn node_parent_element(e: &Element) -> Option<Element> {
    e.parent_element()
}

/// Calls `Node::first_child` on the node that the element is. Nothing is claimed of what the host returns.
#[verifier::external_body]
pub(crate) fn node_first_child(e: &Element) -> Option<Node> {
    e.first_child()
}

/// Calls `Node::last_child` on the node that the element is. Nothing is claimed of what the host returns.
#[verifier::external_body]
pub(crate) fn node_last_child(e: &Element) -> Option<Node> {
    e.last_child()
}

/// Calls `Node::previous_sibling` on the node that the element is. Nothing is claimed of what the host returns.
#[verifier::external_body]
pub(crate) fn node_previous_sibling(e: &Element) -> Option<Node> {
    e.previous_sibling()
}

/// Calls `Node::node_value` on the node that the element is. Nothing is claimed of what the host returns.
#[verifier::external_body]
pub(crate) fn node_node_value(e: &Element) -> Option<String> {
    e.node_value()
}

/// Calls `Node::text_content` on the node that the element is. Nothing is claimed of what the host returns.
#[verifier::external_body]
pub(crate) fn node_text_content(e: &Element) -> Option<String> {
    e.text_content()
}

/// Calls `Node::append_child` on the node that the element is. Nothing is claimed of what the host returns.
#[verifier::external_body]
pub(crate) fn node_append_child(e: &Element, child: &Node) -> Result<Node, JsValue> {
    e.append_child(child)
}

/// Calls `HtmlElement::offset_parent`. Nothing is claimed of what the host returns.
#[verifier::external_body]
pub(crate) fn html_offset_parent(h: &HtmlElement) -> Option<Element> {
    h.offset_parent()
}

/// Calls `HtmlElement::style`. Nothing is claimed of what the host returns.
#[verifier::external_body]
pub(crate) fn html_style(h: &HtmlElement) -> CssStyleDeclaration {
    h.style()
}

/// Calls `CssStyleDeclaration::set_property`. Nothing is claimed of what the host returns.
#[verifier::external_body]
pub(crate) fn style_set_property(s: &CssStyleDeclaration, property: &str, value: &str) -> Result<(), JsValue> {
    s.set_property(property, value)
}

/// Calls `CssStyleDeclaration::get_property_value`. Nothing is claimed of what the host returns.
#[verifier::external_body]
pub(crate) fn style_get_property_value(s: &CssStyleDeclaration, property: &str) -> Result<String, JsValue> {
    s.get_property_value(property)
}

/// Calls `CssStyleDeclaration::remove_property`. Nothing is claimed of what the host returns.
#[verifier::external_body]
pub(crate) fn style_remove_property(s: &CssStyleDeclaration, property: &str) -> Result<String, JsValue> {
    s.remove_property(property)
}

/// Calls `CssStyleDeclaration::set_css_text`. The binding declares no failure and no result.
#[verifier::external_body]
pub(crate) fn style_set_css_text(s: &CssStyleDeclaration, value: &str) {
    s.set_css_text(value)
}

/// Calls `CssStyleDeclaration::css_text`. Nothing is claimed of what the host returns.
#[verifier::external_body]
pub(crate) fn style_css_text(s: &CssStyleDeclaration) -> String {
    s.css_text()
}

/// Calls `NodeList::item`. Nothing is claimed of what the host returns.
#[verifier::external_body]
pub(crate) fn list_item(l: &NodeList, index: u32) -> Option<Node> {
    l.item(index)
}

/// Calls `NodeList::length`. Nothing is claimed of what the host returns.
#[verifier::external_body]
pub(crate) fn list_length(l: &NodeList) -> u32 {
    l.length()
}

/// Calls `Clone::clone` on a `Element`: another handle. Nothing is claimed of it.
#[verifier::external_body]
pub(crate) fn element_clone(h: &Element) -> Element {
    h.clone()
}

/// Calls `Clone::clone` on a `Node`: another handle. Nothing is claimed of it.
#[verifier::external_body]
pub(crate) fn node_clone(h: &Node) -> Node {
    h.clone()
}

/// Calls `JsCast::dyn_into` from `Element` to `HtmlElement`: the host checks the node's kind. Nothing is claimed of the outcome.
#[verifier::external_body]
pub(crate) fn element_into_html(h: Element) -> Result<HtmlElement, Element> {
    h.dyn_into::<HtmlElement>()
}

/// Calls `JsCast::dyn_into` from `Node` to `Element`: the host checks the node's kind. Nothing is claimed of the outcome.
#[verifier::external_body]
pub(crate) fn node_into_element(h: Node) -> Result<Element, Node> {
    h.dyn_into::<Element>()
}

/// Calls `JsCast::dyn_into` from `Node` to `HtmlElement`: the host checks the node's kind. Nothing is claimed of the outcome.
#[verifier::external_body]
pub(crate) fn node_into_html(h: Node) -> Result<HtmlElement, Node> {
    h.dyn_into::<HtmlElement>()
}

/// Calls `AsRef::<Element>::as_ref` on a styled element: the same handle,
/// held as an element. Nothing is claimed of it.
#[verifier::external_body]
pub(crate) fn html_as_element(h: &HtmlElement) -> &Element {
    h.as_ref()
}

/// Calls `js_sys::Reflect::get`: reads the property `key` of `target`. The
/// binding catches what the host raises and hands it back as the error.
/// Nothing is claimed of what the host returns.
#[verifier::external_body]
pub(crate) fn read_property(target: &JsValue, key: &JsValue) -> Result<JsValue, JsValue> {
    Reflect::get(target, key)
}

/// Calls `js_sys::Reflect::set`: writes `value` to the property `key` of
/// `target`. The binding catches what the host raises and hands it back as
/// the error. Nothing is claimed of what the host returns.
#[verifier::external_body]
pub(crate) fn write_property(target: &JsValue, key: &JsValue, value: &JsValue) -> Result<
    bool,
    JsValue,
> {
    Reflect::set(target, key, value)
}

/// Calls `JsValue::from_str`: a value of the host that is the text `s`.
/// Nothing is claimed of it.
#[verifier::external_body]
pub(crate) fn text_value(s: &str) -> JsValue {
    JsValue::from_str(s)
}

/// Calls `JsValue::as_string`: the text that the value is, if it is one.
/// Nothing is claimed of the outcome.
#[verifier::external_body]
pub(crate) fn value_as_text(v: &JsValue) -> Option<String> {
    v.as_string()
}

/// Calls `JsValue::is_null_or_undefined`. Nothing is claimed of the outcome.
#[verifier::external_body]
pub(crate) fn value_is_missing(v: &JsValue) -> bool {
    v.is_null_or_undefined()
}

/// Calls `JsCast::unchecked_into` from `JsValue` to `Document`: the same
/// handle, held as a document, with no check by the host. Nothing is claimed
/// of it.
#[verifier::external_body]
pub(crate) fn value_into_document(v: JsValue) -> Document {
    v.unchecked_into::<Document>()
}

/// Calls `AsRef::<JsValue>::as_ref` on a window: the same handle, held as a
/// value. Nothing is claimed of it.
#[verifier::external_body]
pub(crate) fn window_as_value(w: &Window) -> &JsValue {
    w.as_ref()
}

/// Calls `AsRef::<JsValue>::as_ref` on a document: the same handle, held as a
/// value. Nothing is claimed of it.
#[verifier::external_body]
pub(crate) fn document_as_value(d: &Document) -> &JsValue {
    d.as_ref()
}

/// Calls `AsRef::<JsValue>::as_ref` on an element: the same handle, held as a
/// value. Nothing is claimed of it.
#[verifier::external_body]
pub(crate) fn element_as_value(e: &Element) -> &JsValue {
    e.as_ref()
}

/// Calls `AsRef::<JsValue>::as_ref` on a styled element: the same handle,
/// held as a value. Nothing is claimed of it.
#[verifier::external_body]
pub(crate) fn html_as_value(h: &HtmlElement) -> &JsValue {
    h.as_ref()
}

} // verus!
