//! Searching in sequences of characters.
//!
//! The specifications speak of a text as a `Seq<char>` and of places in it as
//! indices. A search that finds nothing answers the length of the text.

use vstd::prelude::*;

verus! {

/// Whether `c` is white space as Unicode defines it (`White_Space`).
pub open spec fn is_space(c: char) -> bool {
    let n = c as u32;
    ||| 0x09 <= n <= 0x0d
    ||| n == 0x20
    ||| n == 0x85
    ||| n == 0xa0
    ||| n == 0x1680
    ||| 0x2000 <= n <= 0x200a
    ||| n == 0x2028
    ||| n == 0x2029
    ||| n == 0x202f
    ||| n == 0x205f
    ||| n == 0x3000
}

/// The first index at or after `from` where `s` holds `c`; the length of `s` if
/// there is none.
pub open spec fn first_char(s: Seq<char>, c: char, from: int) -> int
    decreases s.len() - from,
{
    if from < 0 || from >= s.len() {
        s.len() as int
    } else if s[from] == c {
        from
    } else {
        first_char(s, c, from + 1)
    }
}

/// The first index at or after `from` where `s` holds white space; the length
/// of `s` if there is none.
pub open spec fn first_space(s: Seq<char>, from: int) -> int
    decreases s.len() - from,
{
    if from < 0 || from >= s.len() {
        s.len() as int
    } else if is_space(s[from]) {
        from
    } else {
        first_space(s, from + 1)
    }
}

/// The first index at or after `from` where `s` holds a slash or white space;
/// the length of `s` if there is none.
pub open spec fn first_stop(s: Seq<char>, from: int) -> int
    decreases s.len() - from,
{
    if from < 0 || from >= s.len() {
        s.len() as int
    } else if s[from] == '/' || is_space(s[from]) {
        from
    } else {
        first_stop(s, from + 1)
    }
}

/// Whether `pattern` stands in `s` at index `at`.
pub open spec fn occurs_at(s: Seq<char>, pattern: Seq<char>, at: int) -> bool {
    &&& 0 <= at
    &&& at + pattern.len() <= s.len()
    &&& s.subrange(at, at + pattern.len()) == pattern
}

/// Whether `s` begins with `prefix`.
pub open spec fn starts_with(s: Seq<char>, prefix: Seq<char>) -> bool {
    occurs_at(s, prefix, 0)
}

/// The first index at or after `from` where `pattern` stands in `s`; the length
/// of `s` if there is none.
pub open spec fn first_occurrence(s: Seq<char>, pattern: Seq<char>, from: int) -> int
    decreases s.len() - from,
{
    if from < 0 || from >= s.len() {
        s.len() as int
    } else if occurs_at(s, pattern, from) {
        from
    } else {
        first_occurrence(s, pattern, from + 1)
    }
}

/// A search from `from` answers an index between `from` and the length.
pub proof fn lemma_first_char_bounds(s: Seq<char>, c: char, from: int)
    requires
        0 <= from <= s.len(),
    ensures
        from <= first_char(s, c, from) <= s.len(),
        first_char(s, c, from) < s.len() ==> s[first_char(s, c, from)] == c,
        forall|i: int| from <= i < first_char(s, c, from) ==> s[i] != c,
    decreases s.len() - from,
{
    if from < s.len() && s[from] != c {
        lemma_first_char_bounds(s, c, from + 1);
    }
}

/// An index with no `c` before it from `from` on, and with `c` at it unless it
/// is the length, is the one that `first_char` answers.
pub proof fn lemma_first_char_is(s: Seq<char>, c: char, from: int, at: int)
    requires
        0 <= from <= at <= s.len(),
        forall|i: int| from <= i < at ==> s[i] != c,
        at < s.len() ==> s[at] == c,
    ensures
        first_char(s, c, from) == at,
    decreases at - from,
{
    if from < at {
        lemma_first_char_is(s, c, from + 1, at);
    }
}

/// An index with no slash and no white space before it from `from` on, and
/// with one of them at it unless it is the length, is the one that
/// `first_stop` answers.
pub proof fn lemma_first_stop_is(s: Seq<char>, from: int, at: int)
    requires
        0 <= from <= at <= s.len(),
        forall|i: int| from <= i < at ==> s[i] != '/' && !is_space(s[i]),
        at < s.len() ==> s[at] == '/' || is_space(s[at]),
    ensures
        first_stop(s, from) == at,
    decreases at - from,
{
    if from < at {
        lemma_first_stop_is(s, from + 1, at);
    }
}

/// A search for white space from `from` answers an index between `from` and
/// the length, with no white space before it.
pub proof fn lemma_first_space_bounds(s: Seq<char>, from: int)
    requires
        0 <= from <= s.len(),
    ensures
        from <= first_space(s, from) <= s.len(),
        first_space(s, from) < s.len() ==> is_space(s[first_space(s, from)]),
        forall|i: int| from <= i < first_space(s, from) ==> !is_space(s[i]),
    decreases s.len() - from,
{
    if from < s.len() && !is_space(s[from]) {
        lemma_first_space_bounds(s, from + 1);
    }
}

/// A search for a slash or white space from `from` answers an index between
/// `from` and the length, with neither before it.
pub proof fn lemma_first_stop_bounds(s: Seq<char>, from: int)
    requires
        0 <= from <= s.len(),
    ensures
        from <= first_stop(s, from) <= s.len(),
        first_stop(s, from) < s.len() ==> s[first_stop(s, from)] == '/' || is_space(
            s[first_stop(s, from)],
        ),
        forall|i: int| from <= i < first_stop(s, from) ==> s[i] != '/' && !is_space(s[i]),
    decreases s.len() - from,
{
    if from < s.len() && !(s[from] == '/' || is_space(s[from])) {
        lemma_first_stop_bounds(s, from + 1);
    }
}

/// A search for a pattern from `from` answers an index between `from` and the
/// length, with no occurrence before it.
pub proof fn lemma_first_occurrence_bounds(s: Seq<char>, pattern: Seq<char>, from: int)
    requires
        0 <= from <= s.len(),
    ensures
        from <= first_occurrence(s, pattern, from) <= s.len(),
        first_occurrence(s, pattern, from) < s.len() ==> occurs_at(
            s,
            pattern,
            first_occurrence(s, pattern, from),
        ),
        forall|i: int|
            from <= i < first_occurrence(s, pattern, from) ==> !occurs_at(s, pattern, i),
    decreases s.len() - from,
{
    if from < s.len() && !occurs_at(s, pattern, from) {
        lemma_first_occurrence_bounds(s, pattern, from + 1);
    }
}

/// The characters of a string, one by one.
pub fn chars_of(s: &str) -> (chars: Vec<char>)
    ensures
        chars@ == s@,
{
    let mut chars: Vec<char> = Vec::new();
    for c in it: s.chars()
        invariant
            it.seq() == s@,
            chars@ == s@.take(it.index()),
    {
        chars.push(c);
    }
    chars
}

/// Whether a character is white space.
pub fn char_is_space(c: char) -> (yes: bool)
    ensures
        yes == is_space(c),
{
    let n: u32 = c as u32;
    (0x09 <= n && n <= 0x0d) || n == 0x20 || n == 0x85 || n == 0xa0 || n == 0x1680 || (0x2000 <= n
        && n <= 0x200a) || n == 0x2028 || n == 0x2029 || n == 0x202f || n == 0x205f || n == 0x3000
}

/// Finds a character.
pub fn find_char(text: &Vec<char>, c: char, from: usize) -> (at: usize)
    ensures
        at == first_char(text@, c, from as int),
{
    if from >= text.len() {
        return text.len();
    }
    let mut i: usize = from;
    while i < text.len() && text[i] != c
        invariant
            from <= i <= text.len(),
            first_char(text@, c, i as int) == first_char(text@, c, from as int),
        decreases text.len() - i,
    {
        i += 1;
    }
    i
}

/// Finds white space.
pub fn find_space(text: &Vec<char>, from: usize) -> (at: usize)
    ensures
        at == first_space(text@, from as int),
{
    if from >= text.len() {
        return text.len();
    }
    let mut i: usize = from;
    while i < text.len() && !char_is_space(text[i])
        invariant
            from <= i <= text.len(),
            first_space(text@, i as int) == first_space(text@, from as int),
        decreases text.len() - i,
    {
        i += 1;
    }
    i
}

/// Finds a slash or white space.
pub fn find_stop(text: &Vec<char>, from: usize) -> (at: usize)
    ensures
        at == first_stop(text@, from as int),
{
    if from >= text.len() {
        return text.len();
    }
    let mut i: usize = from;
    while i < text.len() && text[i] != '/' && !char_is_space(text[i])
        invariant
            from <= i <= text.len(),
            first_stop(text@, i as int) == first_stop(text@, from as int),
        decreases text.len() - i,
    {
        i += 1;
    }
    i
}

/// Whether a pattern stands at an index.
pub fn stands_at(text: &Vec<char>, pattern: &Vec<char>, at: usize) -> (yes: bool)
    ensures
        yes == occurs_at(text@, pattern@, at as int),
{
    if at > text.len() || pattern.len() > text.len() - at {
        return false;
    }
    let mut k: usize = 0;
    while k < pattern.len()
        invariant
            k <= pattern.len(),
            at + pattern.len() <= text.len(),
            forall|j: int| 0 <= j < k ==> text@[at + j] == pattern@[j],
        decreases pattern.len() - k,
    {
        if text[at + k] != pattern[k] {
            assert(text@.subrange(at as int, at + pattern.len())[k as int] != pattern@[k as int]);
            return false;
        }
        k += 1;
    }
    assert(text@.subrange(at as int, at + pattern.len()) =~= pattern@);
    true
}

/// Finds a pattern.
pub fn find(text: &Vec<char>, pattern: &Vec<char>, from: usize) -> (at: usize)
    ensures
        at == first_occurrence(text@, pattern@, from as int),
{
    if from >= text.len() {
        return text.len();
    }
    let mut i: usize = from;
    while i < text.len() && !stands_at(text, pattern, i)
        invariant
            from <= i <= text.len(),
            first_occurrence(text@, pattern@, i as int) == first_occurrence(
                text@,
                pattern@,
                from as int,
            ),
        decreases text.len() - i,
    {
        i += 1;
    }
    i
}

} // verus!
