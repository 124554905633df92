//! Class lists that are names joined by single spaces, and what removing one
//! of the names leaves of them.

use vstd::prelude::*;
use crate::class_names::{lemma_whole_name_absent_after_remove, removed};
use crate::text::{is_space, is_word, lemma_word_covers_no_space, occurs_at, occurs_in};

verus! {

/// The class list that holds `names` in order, with one space between each
/// two.
pub open spec fn joined(names: Seq<Seq<char>>) -> Seq<char>
    decreases names.len(),
{
    if names.len() == 0 {
        Seq::<char>::empty()
    } else if names.len() == 1 {
        names[0]
    } else {
        joined(names.drop_last()) + seq![' '] + names.last()
    }
}

/// `name` stands in `list` at `at` and nowhere else, with whitespace or an
/// end of the list on either side.
pub open spec fn stands_alone(list: Seq<char>, name: Seq<char>, at: int) -> bool {
    &&& occurs_at(list, name, at)
    &&& forall|j: int| j != at ==> !occurs_at(list, name, j)
    &&& (at == 0 || is_space(list[at - 1]))
    &&& (at + name.len() == list.len() || is_space(list[at + name.len()]))
}

/// A word that occurs in two lists with one space between them occurs in one
/// of the two.
pub proof fn lemma_word_in_spaced(a: Seq<char>, b: Seq<char>, word: Seq<char>, j: int)
    requires
        is_word(word),
        occurs_at(a + seq![' '] + b, word, j),
    ensures
        (j + word.len() <= a.len() && occurs_at(a, word, j)) || (j > a.len() && occurs_at(
            b,
            word,
            j - a.len() - 1,
        )),
{
    let all = a + seq![' '] + b;
    let m = word.len() as int;
    if j + m <= a.len() {
        assert(a.subrange(j, j + m) =~= all.subrange(j, j + m));
    } else if j > a.len() {
        assert(b.subrange(j - a.len() - 1, j - a.len() - 1 + m) =~= all.subrange(j, j + m));
    } else {
        lemma_word_covers_no_space(all, word, j, a.len() as int);
        assert(all[a.len() as int] == ' ');
    }
}

/// A word that occurs in none of the names occurs nowhere in their list.
pub proof fn lemma_not_in_joined(names: Seq<Seq<char>>, word: Seq<char>)
    requires
        is_word(word),
        forall|i: int| 0 <= i < names.len() ==> !occurs_in(#[trigger] names[i], word),
    ensures
        !occurs_in(joined(names), word),
    decreases names.len(),
{
    if names.len() >= 2 {
        let head = names.drop_last();
        assert forall|i: int| 0 <= i < head.len() implies !occurs_in(#[trigger] head[i], word) by {
            assert(head[i] == names[i]);
        }
        lemma_not_in_joined(head, word);
        if occurs_in(joined(names), word) {
            let j = choose|j: int| occurs_at(joined(names), word, j);
            lemma_word_in_spaced(joined(head), names.last(), word, j);
            assert(!occurs_in(names[names.len() - 1], word));
        }
    } else if names.len() == 1 {
        assert(!occurs_in(names[0], word));
    } else {
        if occurs_in(joined(names), word) {
            let j = choose|j: int| occurs_at(joined(names), word, j);
        }
    }
}

/// A word that is one of the names, and occurs in no other of them, stands
/// alone in their list: the result is where.
pub proof fn lemma_name_stands_alone(names: Seq<Seq<char>>, name: Seq<char>, k: int) -> (at: int)
    requires
        is_word(name),
        0 <= k < names.len(),
        names[k] == name,
        forall|i: int| 0 <= i < names.len() && i != k ==> !occurs_in(#[trigger] names[i], name),
    ensures
        stands_alone(joined(names), name, at),
    decreases names.len(),
{
    let m = name.len() as int;
    let list = joined(names);
    if names.len() == 1 {
        assert(list.subrange(0, m) =~= name);
        assert forall|j: int| j != 0 implies !occurs_at(list, name, j) by {}
        0
    } else {
        let head = names.drop_last();
        let last = names.last();
        let front = joined(head);
        assert(list == front + seq![' '] + last);
        if k == names.len() - 1 {
            assert forall|i: int| 0 <= i < head.len() implies !occurs_in(
                #[trigger] head[i],
                name,
            ) by {
                assert(head[i] == names[i]);
            }
            lemma_not_in_joined(head, name);
            let at = front.len() as int + 1;
            assert(list.subrange(at, at + m) =~= name);
            assert forall|j: int| j != at implies !occurs_at(list, name, j) by {
                if occurs_at(list, name, j) {
                    lemma_word_in_spaced(front, last, name, j);
                }
            }
            assert(list[at - 1] == ' ');
            at
        } else {
            assert forall|i: int| 0 <= i < head.len() && i != k implies !occurs_in(
                #[trigger] head[i],
                name,
            ) by {
                assert(head[i] == names[i]);
            }
            assert(head[k] == names[k]);
            let at = lemma_name_stands_alone(head, name, k);
            assert(list.subrange(at, at + m) =~= front.subrange(at, at + m));
            assert forall|j: int| j != at implies !occurs_at(list, name, j) by {
                if occurs_at(list, name, j) {
                    lemma_word_in_spaced(front, last, name, j);
                    assert(!occurs_in(names[names.len() - 1], name));
                }
            }
            if at > 0 {
                assert(list[at - 1] == front[at - 1]);
            }
            if at + m == front.len() {
                assert(list[at + m] == ' ');
            } else {
                assert(list[at + m] == front[at + m]);
            }
            at
        }
    }
}

/// A class that was removed is gone, for a list of names with one space
/// between each two: where the word `name` is one of the names and occurs in
/// no other of them, it does not occur in the list after it was removed.
pub proof fn lemma_listed_name_absent_after_remove(
    names: Seq<Seq<char>>,
    name: Seq<char>,
    k: int,
)
    requires
        is_word(name),
        0 <= k < names.len(),
        names[k] == name,
        forall|i: int| 0 <= i < names.len() && i != k ==> !occurs_in(#[trigger] names[i], name),
    ensures
        !occurs_in(removed(joined(names), name), name),
{
    let at = lemma_name_stands_alone(names, name, k);
    lemma_whole_name_absent_after_remove(joined(names), name, at);
}

} // verus!
