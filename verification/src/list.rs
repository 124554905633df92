//! What the list of a selector's matches gives access to: its members by
//! index, and class changes on all of them.

use vstd::prelude::*;
use vstd::string::*;
use web_sys::{Element, HtmlElement, Node, NodeList};
use crate::class_names::{changed, lemma_present_after_add, ClassChange, ClassLists};
use crate::element::{change_class, is_class_failure};
use crate::failure::{diagnostic, Failure, OptionExt, ResultExt};
use crate::platform::{
    html_as_element, list_item, list_length, node_into_element, node_into_html,
};
use crate::text::{decimal, decimal_text, occurs_in};

verus! {

/// The diagnostic for a list that has no node at `index`.
pub open spec fn no_node_at(index: u32) -> Seq<char> {
    "There's not a Node in NodeList in position "@ + decimal(index as nat)
}

/// The diagnostic of a list member that is no element.
pub open spec fn member_not_element() -> Seq<char> {
    "It's not possible get an Element of a Null Node"@
}

/// The diagnostic of a list member that is no styled element.
pub open spec fn member_not_html() -> Seq<char> {
    "It's not possible get an HtmlElement of a Null Node"@
}

/// The diagnostic for a list that has no node at `index`.
pub fn no_node_at_text(index: u32) -> (r: String)
    ensures
        r@ == no_node_at(index),
{
    let position = decimal_text(index);
    diagnostic("There's not a Node in NodeList in position ", position.as_str())
}

/// A change to every member that stopped before the end: what was done for
/// the members before the stop, in their order, and the failure at the member
/// that comes next.
#[derive(Debug, Clone)]
pub struct Stopped {
    pub done: Vec<ClassLists>,
    pub failure: Failure,
}

/// Each of `done` is a class list as `change` for `value` found it and left
/// it.
pub open spec fn all_changed(done: Seq<ClassLists>, value: Seq<char>, change: ClassChange) -> bool {
    forall|k: int|
        0 <= k < done.len() ==> (#[trigger] done[k]).after@ == changed(
            done[k].before@,
            value,
            change,
        )
}

/// `msg` is one of the diagnostics of a change to the member at `index`: the
/// list has no node there, the node is no styled element, or the host did not
/// hand out or take its class list.
pub open spec fn is_member_failure(msg: Seq<char>, index: nat) -> bool {
    ||| msg == "There's not a Node in NodeList in position "@ + decimal(index)
    ||| msg == member_not_html()
    ||| is_class_failure(msg)
}

/// `r` is what a change to every member gives: the lists of all members as
/// the change found and left them, or, where it stopped, those of the members
/// before the stop and the failure at the member whose index is their number.
pub open spec fn is_broadcast(
    r: Result<Vec<ClassLists>, Stopped>,
    value: Seq<char>,
    change: ClassChange,
) -> bool {
    match r {
        Ok(done) => all_changed(done@, value, change),
        Err(stopped) => {
            &&& all_changed(stopped.done@, value, change)
            &&& is_member_failure(stopped.failure@, stopped.done@.len())
        },
    }
}

/// After a class was added to every member, it occurs in the list of each.
pub proof fn lemma_added_to_all(done: Seq<ClassLists>, value: Seq<char>)
    requires
        all_changed(done, value, ClassChange::Add),
    ensures
        forall|k: int| 0 <= k < done.len() ==> occurs_in((#[trigger] done[k]).after@, value),
{
    assert forall|k: int| 0 <= k < done.len() implies occurs_in(
        (#[trigger] done[k]).after@,
        value,
    ) by {
        lemma_present_after_add(done[k].before@, value);
    }
}

/// What is owed after one more member: the changes so far with the new one
/// at their end, or the stop that carries the changes so far and the failure.
pub fn recorded(done: Vec<ClassLists>, outcome: Result<ClassLists, Failure>) -> (r: Result<
    Vec<ClassLists>,
    Stopped,
>)
    ensures
        match outcome {
            Ok(lists) => r is Ok && r->Ok_0@ == done@.push(lists),
            Err(failure) => r is Err && r->Err_0.done@ == done@ && r->Err_0.failure == failure,
        },
{
    match outcome {
        Ok(lists) => {
            let mut longer = done;
            longer.push(lists);
            Ok(longer)
        },
        Err(failure) => Err(Stopped { done, failure }),
    }
}

/// Makes `change` to the class list of the member of `list` at `index`,
/// unless it is in the wanted state already. Gives the list as it was read
/// and as it was left.
pub fn change_class_of_member(list: &NodeList, index: u32, value: &str, change: ClassChange) -> (r:
    Result<ClassLists, Failure>)
    ensures
        r is Ok ==> r->Ok_0.after@ == changed(r->Ok_0.before@, value@, change),
        r is Err ==> is_member_failure(r->Err_0@, index as nat),
{
    let styled = list.get_html(index)?;
    change_class(html_as_element(&styled), value, change)
}

/// Makes `change` to the class list of each of the first `n` members of
/// `list`, from the member at 0 on, one after the other, leaving out the
/// members that are in the wanted state already. Gives, in that order, each
/// member's list as it was read and as it was left.
///
/// Stops at the first member that is missing or no styled element, or whose
/// class list the host does not hand out or take: the members before it keep
/// their change, and those after it are not touched.
pub fn change_class_of_first(list: &NodeList, n: u32, value: &str, change: ClassChange) -> (r:
    Result<Vec<ClassLists>, Stopped>)
    ensures
        is_broadcast(r, value@, change),
        r is Ok ==> r->Ok_0@.len() == n,
        r is Err ==> r->Err_0.done@.len() < n,
        n == 0 ==> r is Ok,
{
    let mut done: Vec<ClassLists> = Vec::new();
    let mut i: u32 = 0;
    while i < n
        invariant
            i <= n,
            done@.len() == i,
            all_changed(done@, value@, change),
        decreases n - i,
    {
        done = recorded(done, change_class_of_member(list, i, value, change))?;
        i = i + 1;
    }
    Ok(done)
}

/// Makes `change` to the class list of each member of `list`, as many as the
/// host says the list has, in the order of the list. Gives what
/// `change_class_of_first` gives for that number.
pub fn change_class_of_all(list: &NodeList, value: &str, change: ClassChange) -> (r: Result<
    Vec<ClassLists>,
    Stopped,
>)
    ensures
        is_broadcast(r, value@, change),
{
    change_class_of_first(list, list_length(list), value, change)
}

/// What the list of a selector's matches gives access to.
pub trait MinimalList {
    /// The node at `index`. The bound is tested at this call.
    fn get_node(&self, index: u32) -> (r: Result<Node, Failure>)
        ensures
            r is Err ==> r->Err_0@ == no_node_at(index),
    ;

    /// The node at `index`, as an element.
    fn get_el(&self, index: u32) -> (r: Result<Element, Failure>)
        ensures
            r is Err ==> r->Err_0@ == no_node_at(index) || r->Err_0@ == member_not_element(),
    ;

    /// The node at `index`, as a styled element.
    fn get_html(&self, index: u32) -> (r: Result<HtmlElement, Failure>)
        ensures
            r is Err ==> r->Err_0@ == no_node_at(index) || r->Err_0@ == member_not_html(),
    ;

    /// Adds `value` to the class list of every member, in the order of the
    /// list. Gives each member's list as it was and as it is left; stops at
    /// the first member that is no styled element, with what was done before
    /// it.
    fn add_list_class(&self, value: &str) -> (r: Result<Vec<ClassLists>, Stopped>)
        ensures
            is_broadcast(r, value@, ClassChange::Add),
    ;

    /// Removes `value` from the class list of every member, in the order of
    /// the list. Gives each member's list as it was and as it is left; stops
    /// at the first member that is no styled element, with what was done
    /// before it.
    fn remove_list_class(&self, value: &str) -> (r: Result<Vec<ClassLists>, Stopped>)
        ensures
            is_broadcast(r, value@, ClassChange::Remove),
    ;
}

impl MinimalList for NodeList {
    fn get_node(&self, index: u32) -> (r: Result<Node, Failure>) {
        let msg = no_node_at_text(index);
        list_item(self, index).custom_expect(msg)
    }

    fn get_el(&self, index: u32) -> (r: Result<Element, Failure>) {
        let member = self.get_node(index)?;
        node_into_element(member).custom_expect(
            String::from_str("It's not possible get an Element of a Null Node"),
        )
    }

    fn get_html(&self, index: u32) -> (r: Result<HtmlElement, Failure>) {
        let member = self.get_node(index)?;
        node_into_html(member).custom_expect(
            String::from_str("It's not possible get an HtmlElement of a Null Node"),
        )
    }

    fn add_list_class(&self, value: &str) -> (r: Result<Vec<ClassLists>, Stopped>) {
        change_class_of_all(self, value, ClassChange::Add)
    }

    fn remove_list_class(&self, value: &str) -> (r: Result<Vec<ClassLists>, Stopped>) {
        change_class_of_all(self, value, ClassChange::Remove)
    }
}

} // verus!
