use minimal::class_names::{
    class_edit, has_class, with_class, with_class_toggled, without_class, ClassChange,
};

#[test]
fn has_class_finds_a_whole_name() {
    assert!(has_class("title", "title"));
    assert!(has_class("title big", "big"));
    assert!(has_class("title big", "title"));
}

#[test]
fn has_class_misses_an_absent_name() {
    assert!(!has_class("title big", "small"));
    assert!(!has_class("", "title"));
    assert!(!has_class("big", "bigger"));
}

#[test]
fn has_class_is_a_substring_test() {
    // "it" is no class of the element, but it is part of "title".
    assert!(has_class("title", "it"));
    assert!(has_class("title big", "e b"));
}

#[test]
fn has_class_of_the_empty_name_is_always_true() {
    assert!(has_class("", ""));
    assert!(has_class("title", ""));
}

#[test]
fn add_to_an_empty_list_gives_the_name_alone() {
    assert_eq!(with_class("", "c"), "c");
    assert_eq!(with_class("", "title"), "title");
}

#[test]
fn add_puts_one_space_before_the_name() {
    assert_eq!(with_class("a", "b"), "a b");
    assert_eq!(with_class("title", "big"), "title big");
    assert_eq!(with_class("a b", "c"), "a b c");
}

#[test]
fn add_of_a_present_name_changes_nothing() {
    assert_eq!(with_class("a b", "a"), "a b");
    assert_eq!(with_class("title", "it"), "title");
    assert_eq!(with_class(" a ", "a"), " a ");
}

#[test]
fn add_twice_is_add_once() {
    let once = with_class("a", "b");
    let twice = with_class(&once, "b");
    assert_eq!(once, twice);
    assert!(has_class(&twice, "b"));
}

#[test]
fn add_keeps_whitespace_that_was_there() {
    assert_eq!(with_class(" a ", "b"), " a  b");
}

#[test]
fn remove_cuts_the_name_and_trims() {
    assert_eq!(without_class("title big", "title"), "big");
    assert_eq!(without_class("title big", "big"), "title");
    assert_eq!(without_class("title", "title"), "");
}

#[test]
fn remove_from_the_middle_leaves_two_spaces() {
    assert_eq!(without_class("a b c", "b"), "a  c");
}

#[test]
fn remove_of_an_absent_name_changes_nothing() {
    assert_eq!(without_class("a b", "c"), "a b");
    assert_eq!(without_class("  a b  ", "c"), "  a b  ");
    assert_eq!(without_class("", "c"), "");
}

#[test]
fn remove_cuts_only_the_leftmost_occurrence() {
    assert_eq!(without_class("ab ab", "ab"), "ab");
    assert_eq!(without_class("a a a", "a"), "a a");
    assert_eq!(without_class("xaxbxa", "xa"), "xbxa");
}

#[test]
fn remove_can_join_what_was_apart() {
    // What is left of "aabb" without its "ab" is "ab" again.
    assert_eq!(without_class("aabb", "ab"), "ab");
    assert!(has_class(&without_class("aabb", "ab"), "ab"));
}

#[test]
fn remove_trims_every_kind_of_whitespace() {
    assert_eq!(without_class("\t a x \n", "x"), "a");
    assert_eq!(without_class("\u{a0}a\u{3000}x", "x"), "a");
    assert_eq!(without_class("\u{2003}x b\u{85}", "x"), "b");
}

#[test]
fn remove_of_the_empty_name_only_trims() {
    assert_eq!(without_class("  a b ", ""), "a b");
    assert_eq!(without_class("a", ""), "a");
}

#[test]
fn remove_twice_is_remove_once() {
    let once = without_class("title big", "title");
    let twice = without_class(&once, "title");
    assert_eq!(once, twice);
    assert!(!has_class(&twice, "title"));
}

#[test]
fn toggle_removes_what_is_there_and_adds_what_is_not() {
    assert_eq!(with_class_toggled("a b", "b"), "a");
    assert_eq!(with_class_toggled("a", "b"), "a b");
    assert_eq!(with_class_toggled("", "b"), "b");
    assert_eq!(with_class_toggled("b", "b"), "");
}

#[test]
fn toggle_twice_gives_the_list_back() {
    for (names, name) in [("", "b"), ("a", "b"), ("a c", "b"), ("b", "b"), ("a b", "b"), ("a  c b", "b")] {
        let once = with_class_toggled(names, name);
        assert_eq!(with_class_toggled(&once, name), names, "{:?} {:?}", names, name);
    }
}

#[test]
fn toggle_twice_moves_a_name_that_was_not_last() {
    let once = with_class_toggled("a b", "a");
    assert_eq!(once, "b");
    assert_eq!(with_class_toggled(&once, "a"), "b a");
}

#[test]
fn toggle_twice_drops_whitespace_around_the_list() {
    let once = with_class_toggled(" a", "b");
    assert_eq!(once, " a b");
    assert_eq!(with_class_toggled(&once, "b"), "a");
}

#[test]
fn toggle_twice_fails_on_a_name_inside_another() {
    let once = with_class_toggled("title", "it");
    assert_eq!(once, "tle");
    assert_eq!(with_class_toggled(&once, "it"), "tle it");
}

#[test]
fn edit_writes_nothing_where_the_state_is_as_wanted() {
    assert_eq!(class_edit("a b", "a", ClassChange::Add), None);
    assert_eq!(class_edit("a b", "c", ClassChange::Remove), None);
}

#[test]
fn edit_gives_the_list_to_write() {
    assert_eq!(class_edit("a b", "c", ClassChange::Add), Some("a b c".to_string()));
    assert_eq!(class_edit("a b", "a", ClassChange::Remove), Some("b".to_string()));
    assert_eq!(class_edit("a b", "a", ClassChange::Toggle), Some("b".to_string()));
    assert_eq!(class_edit("a b", "c", ClassChange::Toggle), Some("a b c".to_string()));
}

#[test]
fn edit_for_the_empty_name_writes_the_trimmed_list() {
    assert_eq!(class_edit(" a ", "", ClassChange::Remove), Some("a".to_string()));
    assert_eq!(class_edit(" a ", "", ClassChange::Add), None);
}

#[test]
fn heading_gains_and_loses_a_class() {
    let names = "title";
    assert!(has_class(names, "title"));
    let bigger = with_class(names, "big");
    assert_eq!(bigger, "title big");
    let untitled = without_class(&bigger, "title");
    assert_eq!(untitled, "big");
}

#[test]
fn names_are_counted_in_characters_not_bytes() {
    assert_eq!(without_class("é grün ü", "grün"), "é  ü");
    assert_eq!(with_class("é", "ü"), "é ü");
    assert!(has_class("naïve", "ïv"));
}
