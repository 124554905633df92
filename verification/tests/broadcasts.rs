use minimal::class_names::class_edit;
use minimal::list::recorded;
use minimal::{ClassChange, ClassLists, Failure};

fn lists(before: &str, after: &str) -> ClassLists {
    ClassLists { before: before.to_string(), after: after.to_string() }
}

fn left(names: &str, value: &str, change: ClassChange) -> String {
    match class_edit(names, value, change) {
        Some(next) => next,
        None => names.to_string(),
    }
}

#[test]
fn a_change_that_was_made_is_put_at_the_end() {
    let done = vec![lists("a", "a b")];
    let r = recorded(done, Ok(lists("", "b"))).unwrap();
    assert_eq!(r.len(), 2);
    assert_eq!(r[0].before, "a");
    assert_eq!(r[0].after, "a b");
    assert_eq!(r[1].before, "");
    assert_eq!(r[1].after, "b");
}

#[test]
fn the_first_change_starts_the_record() {
    let r = recorded(Vec::new(), Ok(lists("a", "a b"))).unwrap();
    assert_eq!(r.len(), 1);
    assert_eq!(r[0].after, "a b");
}

#[test]
fn a_failure_stops_with_what_was_done_before_it() {
    let done = vec![lists("a", "a b"), lists("", "b")];
    let failure = Failure { message: "It's not possible get an HtmlElement of a Null Node".to_string() };
    let stopped = recorded(done, Err(failure)).unwrap_err();
    assert_eq!(stopped.done.len(), 2);
    assert_eq!(stopped.done[0].after, "a b");
    assert_eq!(stopped.done[1].after, "b");
    assert_eq!(stopped.failure.message, "It's not possible get an HtmlElement of a Null Node");
}

#[test]
fn a_failure_at_the_first_member_stops_with_nothing_done() {
    let failure = Failure { message: "There's not a Node in NodeList in position 0".to_string() };
    let stopped = recorded(Vec::new(), Err(failure)).unwrap_err();
    assert_eq!(stopped.done.len(), 0);
    assert_eq!(stopped.failure.message, "There's not a Node in NodeList in position 0");
}

#[test]
fn adding_to_each_of_three_lists() {
    let after: Vec<String> =
        ["a", "", "a b"].iter().map(|names| left(names, "b", ClassChange::Add)).collect();
    assert_eq!(after, vec!["a b", "b", "a b"]);
}

#[test]
fn removing_from_each_of_three_lists() {
    let after: Vec<String> =
        ["a b", "b", "c"].iter().map(|names| left(names, "b", ClassChange::Remove)).collect();
    assert_eq!(after, vec!["a", "", "c"]);
}

#[test]
fn a_record_follows_the_order_of_the_members() {
    let mut done: Vec<ClassLists> = Vec::new();
    for names in ["a", "", "a b"] {
        let after = left(names, "b", ClassChange::Add);
        done = recorded(done, Ok(lists(names, &after))).unwrap();
    }
    let befores: Vec<&str> = done.iter().map(|l| l.before.as_str()).collect();
    let afters: Vec<&str> = done.iter().map(|l| l.after.as_str()).collect();
    assert_eq!(befores, vec!["a", "", "a b"]);
    assert_eq!(afters, vec!["a b", "b", "a b"]);
}
