//! Character-level operations on strings: searching, trimming and rendering
//! numbers, each stated over the string's sequence of characters.

use vstd::prelude::*;
use vstd::string::*;

verus! {

/// `needle` stands in `hay` at position `i`.
pub open spec fn occurs_at(hay: Seq<char>, needle: Seq<char>, i: int) -> bool {
    &&& 0 <= i
    &&& i + needle.len() <= hay.len()
    &&& hay.subrange(i, i + needle.len()) == needle
}

/// `needle` stands somewhere in `hay`.
pub open spec fn occurs_in(hay: Seq<char>, needle: Seq<char>) -> bool {
    exists|i: int| occurs_at(hay, needle, i)
}

/// `i` is the leftmost position at which `needle` stands in `hay`.
pub open spec fn first_at(hay: Seq<char>, needle: Seq<char>, i: int) -> bool {
    &&& occurs_at(hay, needle, i)
    &&& forall|j: int| 0 <= j < i ==> !occurs_at(hay, needle, j)
}

/// The leftmost position of `needle` in `hay`, where there is one.
pub open spec fn first_index(hay: Seq<char>, needle: Seq<char>) -> int {
    choose|i: int| first_at(hay, needle, i)
}

/// There is only one leftmost position.
pub proof fn lemma_first_at_unique(hay: Seq<char>, needle: Seq<char>, i: int, j: int)
    requires
        first_at(hay, needle, i),
        first_at(hay, needle, j),
    ensures
        i == j,
{
}

/// Where `needle` stands at `i`, it has a leftmost position, which is at most
/// `i`.
pub proof fn lemma_first_index(hay: Seq<char>, needle: Seq<char>, i: int)
    requires
        occurs_at(hay, needle, i),
    ensures
        first_at(hay, needle, first_index(hay, needle)),
        first_index(hay, needle) <= i,
    decreases i,
{
    if exists|j: int| 0 <= j < i && occurs_at(hay, needle, j) {
        let j = choose|j: int| 0 <= j < i && occurs_at(hay, needle, j);
        lemma_first_index(hay, needle, j);
    } else {
        assert(first_at(hay, needle, i));
        lemma_first_at_unique(hay, needle, i, first_index(hay, needle));
    }
}

/// The empty text stands in every text, at its start.
pub proof fn lemma_empty_occurs(hay: Seq<char>)
    ensures
        occurs_in(hay, Seq::<char>::empty()),
{
    assert(hay.subrange(0, 0) =~= Seq::<char>::empty());
    assert(occurs_at(hay, Seq::<char>::empty(), 0));
}

/// The characters of a string, in order.
pub fn chars_of(s: &str) -> (v: Vec<char>)
    ensures
        v@ == s@,
{
    let mut v: Vec<char> = Vec::new();
    for c in it: s.chars()
        invariant
            v@ == it.seq().take(it.index() as int),
            it.seq() == s@,
    {
        v.push(c);
        assert(v@ =~= it.seq().take(it.index() + 1));
    }
    assert(s@.take(s@.len() as int) =~= s@);
    v
}

/// Whether `needle` stands in `hay` at position `i`.
fn matches_at(hay: &Vec<char>, needle: &Vec<char>, i: usize) -> (b: bool)
    requires
        i + needle.len() <= hay.len(),
    ensures
        b == occurs_at(hay@, needle@, i as int),
{
    let m = needle.len();
    let mut k: usize = 0;
    while k < m
        invariant
            m == needle.len(),
            k <= m,
            i + m <= hay.len(),
            forall|j: int| 0 <= j < k ==> hay@[i + j] == needle@[j],
        decreases m - k,
    {
        if hay[i + k] != needle[k] {
            assert(hay@.subrange(i as int, i + m)[k as int] == hay@[i + k]);
            return false;
        }
        k = k + 1;
    }
    assert(hay@.subrange(i as int, i + m) =~= needle@);
    true
}

/// The leftmost position at which `needle` stands in `hay`, counted in
/// characters, or `None` where it stands nowhere.
pub fn find(hay: &str, needle: &str) -> (r: Option<usize>)
    ensures
        match r {
            Some(i) => first_at(hay@, needle@, i as int),
            None => !occurs_in(hay@, needle@),
        },
{
    let h = chars_of(hay);
    let n = chars_of(needle);
    if n.len() > h.len() {
        return None;
    }
    let last: usize = h.len() - n.len();
    let mut i: usize = 0;
    loop
        invariant
            h@ == hay@,
            n@ == needle@,
            last == h.len() - n.len(),
            i <= last,
            forall|j: int| 0 <= j < i ==> !occurs_at(hay@, needle@, j),
        decreases last - i,
    {
        if matches_at(&h, &n, i) {
            return Some(i);
        }
        if i == last {
            return None;
        }
        i = i + 1;
    }
}

/// The characters that count as whitespace: those with the Unicode property
/// White_Space.
pub open spec fn is_space(c: char) -> bool {
    let n = c as u32;
    ||| 0x09 <= n <= 0x0D
    ||| n == 0x20
    ||| n == 0x85
    ||| n == 0xA0
    ||| n == 0x1680
    ||| 0x2000 <= n <= 0x200A
    ||| n == 0x2028
    ||| n == 0x2029
    ||| n == 0x202F
    ||| n == 0x205F
    ||| n == 0x3000
}

/// Whether `c` is a whitespace character.
pub fn is_whitespace(c: char) -> (b: bool)
    ensures
        b == is_space(c),
{
    let n: u32 = c as u32;
    (0x09 <= n && n <= 0x0D) || n == 0x20 || n == 0x85 || n == 0xA0 || n == 0x1680 || (0x2000 <= n
        && n <= 0x200A) || n == 0x2028 || n == 0x2029 || n == 0x202F || n == 0x205F || n == 0x3000
}

/// How many whitespace characters `s` begins with.
pub open spec fn leading_spaces(s: Seq<char>) -> nat
    decreases s.len(),
{
    if s.len() > 0 && is_space(s.first()) {
        1 + leading_spaces(s.drop_first())
    } else {
        0
    }
}

/// How many whitespace characters `s` ends with.
pub open spec fn trailing_spaces(s: Seq<char>) -> nat
    decreases s.len(),
{
    if s.len() > 0 && is_space(s.last()) {
        1 + trailing_spaces(s.drop_last())
    } else {
        0
    }
}

/// `s` without the whitespace it begins with and ends with.
pub open spec fn trimmed(s: Seq<char>) -> Seq<char> {
    let rest = s.skip(leading_spaces(s) as int);
    rest.take(rest.len() - trailing_spaces(rest))
}

/// The leading whitespace of `s` is a run of whitespace characters that ends
/// at the first other character.
pub proof fn lemma_leading_spaces(s: Seq<char>)
    ensures
        leading_spaces(s) <= s.len(),
        forall|i: int| 0 <= i < leading_spaces(s) ==> is_space(s[i]),
        leading_spaces(s) < s.len() ==> !is_space(s[leading_spaces(s) as int]),
    decreases s.len(),
{
    if s.len() > 0 && is_space(s.first()) {
        let rest = s.drop_first();
        lemma_leading_spaces(rest);
        assert forall|i: int| 0 <= i < leading_spaces(s) implies is_space(s[i]) by {
            if i > 0 {
                assert(s[i] == rest[i - 1]);
            }
        }
        if leading_spaces(s) < s.len() {
            assert(s[leading_spaces(s) as int] == rest[leading_spaces(rest) as int]);
        }
    }
}

/// The trailing whitespace of `s` is a run of whitespace characters that
/// begins after the last other character.
pub proof fn lemma_trailing_spaces(s: Seq<char>)
    ensures
        trailing_spaces(s) <= s.len(),
        forall|i: int| s.len() - trailing_spaces(s) <= i < s.len() ==> is_space(s[i]),
        trailing_spaces(s) < s.len() ==> !is_space(s[s.len() - trailing_spaces(s) - 1]),
    decreases s.len(),
{
    if s.len() > 0 && is_space(s.last()) {
        let rest = s.drop_last();
        lemma_trailing_spaces(rest);
        assert forall|i: int| s.len() - trailing_spaces(s) <= i < s.len() implies is_space(
            s[i],
        ) by {
            if i < s.len() - 1 {
                assert(s[i] == rest[i]);
            }
        }
        if trailing_spaces(s) < s.len() {
            assert(s[s.len() - trailing_spaces(s) - 1] == rest[rest.len() - trailing_spaces(rest)
                - 1]);
        }
    }
}

/// A run of `a` whitespace characters at the start of `s` that ends at
/// another character, or at the end of `s`, is all of its leading whitespace.
pub proof fn lemma_leading_spaces_is(s: Seq<char>, a: int)
    requires
        0 <= a <= s.len(),
        forall|i: int| 0 <= i < a ==> is_space(s[i]),
        a < s.len() ==> !is_space(s[a]),
    ensures
        leading_spaces(s) == a,
{
    lemma_leading_spaces(s);
    let found = leading_spaces(s) as int;
    if found < a {
        assert(is_space(s[found]));
    } else if found > a {
        assert(is_space(s[a]));
    }
}

/// A run of `b` whitespace characters at the end of `s` that begins after
/// another character, or at the start of `s`, is all of its trailing
/// whitespace.
pub proof fn lemma_trailing_spaces_is(s: Seq<char>, b: int)
    requires
        0 <= b <= s.len(),
        forall|i: int| s.len() - b <= i < s.len() ==> is_space(s[i]),
        b < s.len() ==> !is_space(s[s.len() - b - 1]),
    ensures
        trailing_spaces(s) == b,
{
    lemma_trailing_spaces(s);
    let found = trailing_spaces(s) as int;
    if found < b {
        assert(is_space(s[s.len() - found - 1]));
    } else if found > b {
        assert(is_space(s[s.len() - b - 1]));
    }
}

/// `s` without the whitespace around it.
pub fn trim<'a>(s: &'a str) -> (r: &'a str)
    ensures
        r@ == trimmed(s@),
{
    let v = chars_of(s);
    let n = v.len();
    let mut a: usize = 0;
    while a < n && is_whitespace(v[a])
        invariant
            a <= n,
            n == v.len(),
            forall|i: int| 0 <= i < a ==> is_space(v@[i]),
        decreases n - a,
    {
        a = a + 1;
    }
    let mut b: usize = n;
    while b > a && is_whitespace(v[b - 1])
        invariant
            a <= b <= n,
            n == v.len(),
            forall|i: int| b <= i < n ==> is_space(v@[i]),
        decreases b,
    {
        b = b - 1;
    }
    proof {
        lemma_leading_spaces_is(s@, a as int);
        let rest = s@.skip(a as int);
        assert forall|i: int| rest.len() - (n - b) <= i < rest.len() implies is_space(rest[i]) by {
            assert(rest[i] == s@[i + a]);
        }
        lemma_trailing_spaces_is(rest, n - b);
        assert(rest.take(rest.len() - (n - b)) =~= s@.subrange(a as int, b as int));
    }
    s.substring_char(a, b)
}

/// `s` neither begins nor ends with whitespace.
pub open spec fn is_trimmed(s: Seq<char>) -> bool {
    s.len() == 0 || (!is_space(s.first()) && !is_space(s.last()))
}

/// What trimming keeps is the stretch of `s` from its first to its last
/// character that is no whitespace: the result names its two ends.
pub proof fn lemma_trimmed_range(s: Seq<char>) -> (ends: (int, int))
    ensures
        0 <= ends.0 <= ends.1 <= s.len(),
        trimmed(s) == s.subrange(ends.0, ends.1),
        forall|i: int| 0 <= i < ends.0 ==> is_space(s[i]),
        forall|i: int| ends.1 <= i < s.len() ==> is_space(s[i]),
        ends.0 < ends.1 ==> !is_space(s[ends.0]) && !is_space(s[ends.1 - 1]),
{
    lemma_leading_spaces(s);
    let a = leading_spaces(s) as int;
    let rest = s.skip(a);
    lemma_trailing_spaces(rest);
    let b = s.len() - trailing_spaces(rest);
    assert(rest.take(rest.len() - trailing_spaces(rest)) =~= s.subrange(a, b));
    assert forall|i: int| b <= i < s.len() implies is_space(s[i]) by {
        assert(s[i] == rest[i - a]);
    }
    if a < b {
        assert(s[b - 1] == rest[b - 1 - a]);
    }
    (a, b)
}

/// Trimming changes nothing exactly where there is no whitespace at either
/// end.
pub proof fn lemma_trimmed_fixed(s: Seq<char>)
    ensures
        trimmed(s) == s <==> is_trimmed(s),
{
    let ends = lemma_trimmed_range(s);
    if is_trimmed(s) {
        if s.len() > 0 {
            assert(ends.0 == 0) by {
                if ends.0 > 0 {
                    assert(is_space(s[0]));
                }
            }
            assert(ends.1 == s.len()) by {
                if ends.1 < s.len() {
                    assert(is_space(s[s.len() - 1]));
                }
            }
        }
        assert(s.subrange(ends.0, ends.1) =~= s);
    }
    if trimmed(s) == s {
        assert(s.subrange(ends.0, ends.1).len() == s.len());
    }
}

/// What trimming gives has no whitespace at either end, and is no longer
/// than what was trimmed.
pub proof fn lemma_trimmed_is_trimmed(s: Seq<char>)
    ensures
        is_trimmed(trimmed(s)),
        trimmed(s).len() <= s.len(),
{
    let ends = lemma_trimmed_range(s);
}

/// Whitespace added at the end is trimmed away again.
pub proof fn lemma_trimmed_push_space(s: Seq<char>, c: char)
    requires
        is_space(c),
    ensures
        trimmed(s.push(c)) == trimmed(s),
{
    let long = s.push(c);
    lemma_leading_spaces(s);
    let a = leading_spaces(s) as int;
    if a == s.len() {
        lemma_leading_spaces_is(long, long.len() as int);
        assert(trimmed(long) =~= Seq::<char>::empty());
        assert(trimmed(s) =~= Seq::<char>::empty());
    } else {
        assert(long[a] == s[a]);
        lemma_leading_spaces_is(long, a);
        let rest = s.skip(a);
        let long_rest = long.skip(a);
        assert(long_rest =~= rest.push(c));
        assert(long_rest.drop_last() =~= rest);
        assert(trailing_spaces(long_rest) == 1 + trailing_spaces(rest));
        lemma_trailing_spaces(rest);
        assert(long_rest.take(long_rest.len() - trailing_spaces(long_rest)) =~= rest.take(
            rest.len() - trailing_spaces(rest),
        ));
    }
}

/// What occurs in a stretch of `s` occurs in `s`.
pub proof fn lemma_occurs_in_subrange(s: Seq<char>, from: int, to: int, needle: Seq<char>)
    requires
        0 <= from <= to <= s.len(),
        occurs_in(s.subrange(from, to), needle),
    ensures
        occurs_in(s, needle),
{
    let part = s.subrange(from, to);
    let i = choose|i: int| occurs_at(part, needle, i);
    assert(s.subrange(from + i, from + i + needle.len()) =~= part.subrange(i, i + needle.len()));
    assert(occurs_at(s, needle, from + i));
}

/// Trimming brings in nothing that did not occur before.
pub proof fn lemma_occurs_in_trimmed(s: Seq<char>, needle: Seq<char>)
    requires
        occurs_in(trimmed(s), needle),
    ensures
        occurs_in(s, needle),
{
    let ends = lemma_trimmed_range(s);
    lemma_occurs_in_subrange(s, ends.0, ends.1, needle);
}

/// One or more characters, none of them whitespace.
pub open spec fn is_word(s: Seq<char>) -> bool {
    &&& s.len() > 0
    &&& forall|i: int| 0 <= i < s.len() ==> !is_space(#[trigger] s[i])
}

/// A word that occurs in `s` covers no whitespace of `s`.
pub proof fn lemma_word_covers_no_space(s: Seq<char>, word: Seq<char>, at: int, i: int)
    requires
        is_word(word),
        occurs_at(s, word, at),
        at <= i < at + word.len(),
    ensures
        !is_space(s[i]),
{
    assert(s.subrange(at, at + word.len())[i - at] == s[i]);
    assert(!is_space(word[i - at]));
}

/// Trimming takes away no occurrence of a word.
pub proof fn lemma_word_occurs_in_trimmed(s: Seq<char>, word: Seq<char>)
    requires
        is_word(word),
    ensures
        occurs_in(trimmed(s), word) <==> occurs_in(s, word),
{
    let ends = lemma_trimmed_range(s);
    if occurs_in(trimmed(s), word) {
        lemma_occurs_in_trimmed(s, word);
    }
    if occurs_in(s, word) {
        let at = choose|at: int| occurs_at(s, word, at);
        lemma_word_covers_no_space(s, word, at, at);
        lemma_word_covers_no_space(s, word, at, at + word.len() - 1);
        assert(ends.0 <= at);
        assert(at + word.len() <= ends.1);
        let part = s.subrange(ends.0, ends.1);
        assert(part.subrange(at - ends.0, at - ends.0 + word.len()) =~= s.subrange(
            at,
            at + word.len(),
        ));
        assert(occurs_at(part, word, at - ends.0));
    }
}

/// The character for a decimal digit.
pub open spec fn digit(d: nat) -> char {
    if d == 0 {
        '0'
    } else if d == 1 {
        '1'
    } else if d == 2 {
        '2'
    } else if d == 3 {
        '3'
    } else if d == 4 {
        '4'
    } else if d == 5 {
        '5'
    } else if d == 6 {
        '6'
    } else if d == 7 {
        '7'
    } else if d == 8 {
        '8'
    } else {
        '9'
    }
}

/// A number written in decimal, without leading zeros.
pub open spec fn decimal(n: nat) -> Seq<char>
    decreases n,
{
    if n < 10 {
        seq![digit(n)]
    } else {
        decimal(n / 10).push(digit(n % 10))
    }
}

/// The text of one decimal digit.
fn digit_text(d: u32) -> (r: &'static str)
    requires
        d < 10,
    ensures
        r@ == seq![digit(d as nat)],
{
    proof {
        reveal_strlit("0123456789");
    }
    let from: usize = d as usize;
    let r = "0123456789".substring_char(from, from + 1);
    assert(r@ =~= seq![digit(d as nat)]);
    r
}

/// `n` written in decimal.
pub fn decimal_text(n: u32) -> (r: String)
    ensures
        r@ == decimal(n as nat),
{
    let mut out = String::from_str(digit_text(n % 10));
    let mut rest: u32 = n / 10;
    assert(decimal(n as nat) =~= if rest == 0 {
        out@
    } else {
        decimal(rest as nat) + out@
    });
    while rest > 0
        invariant
            decimal(n as nat) == if rest == 0 {
                out@
            } else {
                decimal(rest as nat) + out@
            },
        decreases rest,
    {
        let longer = String::from_str(digit_text(rest % 10)).concat(out.as_str());
        let ghost before = rest;
        rest = rest / 10;
        assert(decimal(before as nat) + out@ =~= if rest == 0 {
            longer@
        } else {
            decimal(rest as nat) + longer@
        });
        out = longer;
    }
    out
}

} // verus!
