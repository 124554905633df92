//! The class list of an element, kept as one string of names separated by
//! whitespace. Membership is a test for a substring, not for a whole name.

use vstd::prelude::*;
use vstd::string::*;
use crate::text::{
    find, first_at, first_index, is_space, is_trimmed, is_word, lemma_first_at_unique,
    lemma_first_index, lemma_occurs_in_trimmed, lemma_trimmed_fixed, lemma_trimmed_is_trimmed,
    lemma_trimmed_push_space, lemma_word_covers_no_space, lemma_word_occurs_in_trimmed, occurs_at,
    occurs_in, trim, trimmed,
};

verus! {

/// `names` with the leftmost occurrence of `name` cut out.
pub open spec fn without_first(names: Seq<char>, name: Seq<char>) -> Seq<char> {
    let i = first_index(names, name);
    names.subrange(0, i) + names.subrange(i + name.len(), names.len() as int)
}

/// The class list after `name` was added: unchanged where `name` already
/// occurs in it, else with `name` at the end, after one space unless the list
/// was empty.
pub open spec fn added(names: Seq<char>, name: Seq<char>) -> Seq<char> {
    if occurs_in(names, name) {
        names
    } else if names.len() == 0 {
        name
    } else {
        names + seq![' '] + name
    }
}

/// The class list after `name` was removed: unchanged where `name` does not
/// occur in it, else without the leftmost occurrence and without the
/// whitespace around what is left.
pub open spec fn removed(names: Seq<char>, name: Seq<char>) -> Seq<char> {
    if occurs_in(names, name) {
        trimmed(without_first(names, name))
    } else {
        names
    }
}

/// The class list after `name` was toggled: removed where it occurs, added
/// where it does not.
pub open spec fn toggled(names: Seq<char>, name: Seq<char>) -> Seq<char> {
    if occurs_in(names, name) {
        removed(names, name)
    } else {
        added(names, name)
    }
}

/// A change to a class list.
#[derive(Clone, Copy, Debug, PartialEq, Eq, Structural)]
pub enum ClassChange {
    Add,
    Remove,
    Toggle,
}

/// A class list as a change found it and as the change left it.
#[derive(Debug, Clone)]
pub struct ClassLists {
    pub before: String,
    pub after: String,
}

/// The class list after `change` was made for `name`.
pub open spec fn changed(names: Seq<char>, name: Seq<char>, change: ClassChange) -> Seq<char> {
    match change {
        ClassChange::Add => added(names, name),
        ClassChange::Remove => removed(names, name),
        ClassChange::Toggle => toggled(names, name),
    }
}

/// Whether `change` has anything to do on `names`: adding where `name` does
/// not occur, removing where it does, toggling always.
pub open spec fn is_due(names: Seq<char>, name: Seq<char>, change: ClassChange) -> bool {
    match change {
        ClassChange::Add => !occurs_in(names, name),
        ClassChange::Remove => occurs_in(names, name),
        ClassChange::Toggle => true,
    }
}

/// Whether `name` occurs in the class list `names`.
pub fn has_class(names: &str, name: &str) -> (b: bool)
    ensures
        b == occurs_in(names@, name@),
{
    find(names, name).is_some()
}

/// The class list `names` with `name` added.
pub fn with_class(names: &str, name: &str) -> (r: String)
    ensures
        r@ == added(names@, name@),
{
    if has_class(names, name) {
        String::from_str(names)
    } else if names.unicode_len() == 0 {
        String::from_str(name)
    } else {
        proof {
            reveal_strlit(" ");
            assert(" "@ =~= seq![' ']);
        }
        String::from_str(names).concat(" ").concat(name)
    }
}

/// The class list `names` with `name` removed.
pub fn without_class(names: &str, name: &str) -> (r: String)
    ensures
        r@ == removed(names@, name@),
{
    match find(names, name) {
        Some(i) => {
            let n = names.unicode_len();
            let m = name.unicode_len();
            proof {
                lemma_first_at_unique(names@, name@, i as int, first_index(names@, name@));
            }
            let cut = String::from_str(names.substring_char(0, i)).concat(
                names.substring_char(i + m, n),
            );
            String::from_str(trim(cut.as_str()))
        },
        None => String::from_str(names),
    }
}

/// The class list `names` with `name` toggled.
pub fn with_class_toggled(names: &str, name: &str) -> (r: String)
    ensures
        r@ == toggled(names@, name@),
{
    if has_class(names, name) {
        without_class(names, name)
    } else {
        with_class(names, name)
    }
}

/// The class list to write in place of `names` for `change`, or `None` where
/// the list is in the wanted state already and nothing is to be written.
pub fn class_edit(names: &str, name: &str, change: ClassChange) -> (r: Option<String>)
    ensures
        r is Some <==> is_due(names@, name@, change),
        r is Some ==> r->0@ == changed(names@, name@, change),
        r is None ==> changed(names@, name@, change) == names@,
{
    let present = has_class(names, name);
    match change {
        ClassChange::Add => {
            if present {
                None
            } else {
                Some(with_class(names, name))
            }
        },
        ClassChange::Remove => {
            if present {
                Some(without_class(names, name))
            } else {
                None
            }
        },
        ClassChange::Toggle => Some(with_class_toggled(names, name)),
    }
}

/// A class that was added is there: after `name` was added to any class
/// list, it occurs in the list.
pub proof fn lemma_present_after_add(names: Seq<char>, name: Seq<char>)
    ensures
        occurs_in(added(names, name), name),
{
    if !occurs_in(names, name) {
        let after = added(names, name);
        let at = after.len() - name.len();
        assert(after.subrange(at, at + name.len()) =~= name);
        assert(occurs_at(after, name, at));
    }
}

/// Adding a class twice leaves the list as adding it once does.
pub proof fn lemma_add_twice(names: Seq<char>, name: Seq<char>)
    ensures
        added(added(names, name), name) == added(names, name),
{
    lemma_present_after_add(names, name);
}

/// Adding to the empty class list gives the name alone, with no separator
/// before it.
pub proof fn lemma_add_to_empty(name: Seq<char>)
    ensures
        added(Seq::<char>::empty(), name) == name,
{
    if occurs_in(Seq::<char>::empty(), name) {
        let i = choose|i: int| occurs_at(Seq::<char>::empty(), name, i);
        assert(name =~= Seq::<char>::empty());
    }
}

/// A class that was removed is gone, where cutting out its leftmost
/// occurrence leaves no other: then `name` does not occur in the list after
/// it was removed.
pub proof fn lemma_absent_after_remove(names: Seq<char>, name: Seq<char>)
    requires
        occurs_in(names, name) ==> !occurs_in(without_first(names, name), name),
    ensures
        !occurs_in(removed(names, name), name),
{
    if occurs_in(names, name) && occurs_in(removed(names, name), name) {
        lemma_occurs_in_trimmed(without_first(names, name), name);
    }
}

/// Removing a class twice leaves the list as removing it once does, where
/// cutting out its leftmost occurrence leaves no other.
pub proof fn lemma_remove_twice(names: Seq<char>, name: Seq<char>)
    requires
        occurs_in(names, name) ==> !occurs_in(without_first(names, name), name),
    ensures
        removed(removed(names, name), name) == removed(names, name),
{
    lemma_absent_after_remove(names, name);
}

/// A name that stands in the list once, as a whole name, is gone once it is
/// cut out: where the word `name` occurs at one position only, with
/// whitespace or an end of the list on either side, cutting it out leaves no
/// occurrence.
pub proof fn lemma_cut_whole_name(names: Seq<char>, name: Seq<char>, at: int)
    requires
        is_word(name),
        occurs_at(names, name, at),
        forall|j: int| j != at ==> !occurs_at(names, name, j),
        at == 0 || is_space(names[at - 1]),
        at + name.len() == names.len() || is_space(names[at + name.len()]),
    ensures
        !occurs_in(without_first(names, name), name),
{
    lemma_first_index(names, name, at);
    assert(first_index(names, name) == at);
    let cut = without_first(names, name);
    let m = name.len() as int;
    assert forall|j: int| !occurs_at(cut, name, j) by {
        if occurs_at(cut, name, j) {
            if j + m <= at {
                assert(names.subrange(j, j + m) =~= cut.subrange(j, j + m));
                assert(occurs_at(names, name, j));
            } else if j >= at {
                assert(names.subrange(j + m, j + m + m) =~= cut.subrange(j, j + m));
                assert(occurs_at(names, name, j + m));
            } else {
                lemma_word_covers_no_space(cut, name, j, at - 1);
                assert(cut[at - 1] == names[at - 1]);
            }
        }
    }
}

/// A name that stands in the list once, as a whole name, is gone after it
/// was removed.
pub proof fn lemma_whole_name_absent_after_remove(names: Seq<char>, name: Seq<char>, at: int)
    requires
        is_word(name),
        occurs_at(names, name, at),
        forall|j: int| j != at ==> !occurs_at(names, name, j),
        at == 0 || is_space(names[at - 1]),
        at + name.len() == names.len() || is_space(names[at + name.len()]),
    ensures
        !occurs_in(removed(names, name), name),
{
    lemma_cut_whole_name(names, name, at);
    lemma_absent_after_remove(names, name);
}

/// For a name that is a word, removal leaves an occurrence behind exactly
/// where one is left once the leftmost is cut out.
pub proof fn lemma_left_after_remove(names: Seq<char>, name: Seq<char>)
    requires
        is_word(name),
    ensures
        occurs_in(removed(names, name), name) <==> occurs_in(names, name) && occurs_in(
            without_first(names, name),
            name,
        ),
{
    lemma_word_occurs_in_trimmed(without_first(names, name), name);
}

/// `names` is a non-empty list without whitespace around it, in which `name`
/// does not occur, followed by one space and `name`.
pub open spec fn ends_with_class(names: Seq<char>, name: Seq<char>) -> bool {
    let head = names.take(names.len() - name.len() - 1);
    &&& names.len() > name.len() + 1
    &&& names == head + seq![' '] + name
    &&& is_trimmed(head)
    &&& !occurs_in(head, name)
}

/// The class lists that toggling `name` twice gives back: where `name` does
/// not occur, those without whitespace around them; where it occurs, the list
/// that is `name` alone and those that end with it.
pub open spec fn restorable(names: Seq<char>, name: Seq<char>) -> bool {
    if occurs_in(names, name) {
        names == name || ends_with_class(names, name)
    } else {
        is_trimmed(names)
    }
}

/// In a list that is `name` alone, cutting `name` out leaves nothing.
pub proof fn lemma_cut_alone(name: Seq<char>)
    ensures
        occurs_in(name, name),
        without_first(name, name) == Seq::<char>::empty(),
{
    assert(name.subrange(0, name.len() as int) =~= name);
    assert(occurs_at(name, name, 0));
    lemma_first_index(name, name, 0);
    assert(without_first(name, name) =~= Seq::<char>::empty());
}

/// Where a word follows, after one space, a list in which it does not occur,
/// its leftmost occurrence is that last one, and cutting it out leaves the
/// list and the space.
pub proof fn lemma_cut_last(head: Seq<char>, name: Seq<char>)
    requires
        is_word(name),
        !occurs_in(head, name),
    ensures
        occurs_in(head + seq![' '] + name, name),
        without_first(head + seq![' '] + name, name) == head.push(' '),
{
    let all = head + seq![' '] + name;
    let at: int = head.len() as int + 1;
    assert(all.subrange(at, at + name.len()) =~= name);
    assert(occurs_at(all, name, at));
    assert forall|j: int| 0 <= j < at implies !occurs_at(all, name, j) by {
        if occurs_at(all, name, j) {
            if j + name.len() <= head.len() {
                assert(head.subrange(j, j + name.len()) =~= all.subrange(j, j + name.len()));
                assert(occurs_at(head, name, j));
            } else {
                lemma_word_covers_no_space(all, name, j, head.len() as int);
                assert(all[head.len() as int] == ' ');
            }
        }
    }
    assert(first_at(all, name, at));
    lemma_first_index(all, name, at);
    lemma_first_at_unique(all, name, at, first_index(all, name));
    assert(without_first(all, name) =~= head.push(' '));
}

/// Toggling a class twice gives the class list back exactly on the lists
/// that `restorable` describes, for a name that is a word.
pub proof fn lemma_toggle_twice(names: Seq<char>, name: Seq<char>)
    requires
        is_word(name),
    ensures
        toggled(toggled(names, name), name) == names <==> restorable(names, name),
{
    let once = toggled(names, name);
    let twice = toggled(once, name);
    if !occurs_in(names, name) {
        lemma_present_after_add(names, name);
        if names.len() == 0 {
            lemma_cut_alone(name);
            assert(trimmed(Seq::<char>::empty()) =~= Seq::<char>::empty());
            assert(twice =~= names);
        } else {
            lemma_cut_last(names, name);
            lemma_trimmed_push_space(names, ' ');
            lemma_trimmed_fixed(names);
            assert(twice == trimmed(names));
        }
    } else {
        let cut = without_first(names, name);
        lemma_cut_length(names, name);
        lemma_trimmed_is_trimmed(cut);
        if ends_with_class(names, name) {
            let head = names.take(names.len() - name.len() - 1);
            lemma_cut_last(head, name);
            lemma_trimmed_push_space(head, ' ');
            lemma_trimmed_fixed(head);
            assert(once == head);
            assert(twice == names);
        } else if names == name {
            lemma_cut_alone(name);
            assert(trimmed(Seq::<char>::empty()) =~= Seq::<char>::empty());
            assert(once.len() == 0);
            lemma_add_to_empty(name);
            assert(!occurs_in(once, name)) by {
                if occurs_in(once, name) {
                    let i = choose|i: int| occurs_at(once, name, i);
                }
            }
            assert(twice == names);
        } else if occurs_in(once, name) {
            lemma_cut_length(once, name);
            lemma_trimmed_is_trimmed(without_first(once, name));
            assert(twice.len() < names.len());
        } else if once.len() == 0 {
            assert(twice == name);
        } else {
            assert(twice == once + seq![' '] + name);
            if twice == names {
                assert(names.take(names.len() - name.len() - 1) =~= once);
                assert(ends_with_class(names, name));
            }
        }
    }
}

/// Cutting out an occurrence shortens the list by the length of the name.
pub proof fn lemma_cut_length(names: Seq<char>, name: Seq<char>)
    requires
        occurs_in(names, name),
    ensures
        without_first(names, name).len() == names.len() - name.len(),
{
    let i = choose|i: int| occurs_at(names, name, i);
    lemma_first_index(names, name, i);
}

} // verus!
