//! What a bare node gives access to: the coercions to the two richer kinds.

use vstd::prelude::*;
use vstd::string::*;
use web_sys::{Element, HtmlElement, Node};
use crate::failure::{Failure, ResultExt};
use crate::platform::{node_clone, node_into_element, node_into_html};

verus! {

/// The diagnostic of a coercion from node to element that the host refused.
pub open spec fn node_not_element() -> Seq<char> {
    "It's not possible convert a Null Node to Element"@
}

/// The diagnostic of a coercion from node to styled element that the host
/// refused.
pub open spec fn node_not_html() -> Seq<char> {
    "It's not possible convert a Null Node to HtmlElement"@
}

/// What a bare node gives access to.
pub trait MinimalNode {
    /// The same node as an element.
    fn to_el(&self) -> (r: Result<Element, Failure>)
        ensures
            r is Err ==> r->Err_0@ == node_not_element(),
    ;

    /// The same node as a styled element.
    fn to_html(&self) -> (r: Result<HtmlElement, Failure>)
        ensures
            r is Err ==> r->Err_0@ == node_not_html(),
    ;
}

impl MinimalNode for Node {
    fn to_el(&self) -> (r: Result<Element, Failure>) {
        node_into_element(node_clone(self)).custom_expect(
            String::from_str("It's not possible convert a Null Node to Element"),
        )
    }

    fn to_html(&self) -> (r: Result<HtmlElement, Failure>) {
        node_into_html(node_clone(self)).custom_expect(
            String::from_str("It's not possible convert a Null Node to HtmlElement"),
        )
    }
}

} // verus!
