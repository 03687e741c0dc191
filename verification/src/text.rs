//! Small verified helpers on strings, seen as sequences of characters.

use vstd::prelude::*;
use vstd::string::*;

verus! {

/// Collects the characters of a string slice.
pub fn chars_of(s: &str) -> (v: Vec<char>)
    ensures
        v@ == s@,
{
    let mut v: Vec<char> = Vec::new();
    for c in it: s.chars()
        invariant
            v@ == it.seq().take(it.index() as int),
            it.seq() == s@,
    {
        v.push(c);
    }
    v
}

/// Whether two character vectors hold the same text.
pub fn same_chars(a: &Vec<char>, b: &Vec<char>) -> (r: bool)
    ensures
        r == (a@ == b@),
{
    if a.len() != b.len() {
        return false;
    }
    let mut i: usize = 0;
    while i < a.len()
        invariant
            i <= a.len(),
            a.len() == b.len(),
            forall|k: int| 0 <= k < i ==> a@[k] == b@[k],
        decreases a.len() - i,
    {
        if a[i] != b[i] {
            return false;
        }
        i += 1;
    }
    assert(a@ =~= b@);
    true
}

/// Whether two string slices hold the same text.
pub fn same_text(a: &str, b: &str) -> (r: bool)
    ensures
        r == (a@ == b@),
{
    let av = chars_of(a);
    let bv = chars_of(b);
    same_chars(&av, &bv)
}

/// The first position at or after `from` at which `keys` holds `key`.
pub open spec fn first_match(keys: Seq<Seq<char>>, key: Seq<char>, from: int) -> Option<int>
    decreases keys.len() - from,
{
    if from < 0 || from >= keys.len() {
        None
    } else if keys[from] == key {
        Some(from)
    } else {
        first_match(keys, key, from + 1)
    }
}

/// What `first_match` finds: the first position that holds the key, if any does.
pub proof fn lemma_first_match(keys: Seq<Seq<char>>, key: Seq<char>, from: int)
    requires
        0 <= from,
    ensures
        match first_match(keys, key, from) {
            Some(i) => from <= i < keys.len() && keys[i] == key && forall|j: int|
                from <= j < i ==> keys[j] != key,
            None => forall|j: int| from <= j < keys.len() ==> keys[j] != key,
        },
    decreases keys.len() - from,
{
    if from < keys.len() && keys[from] != key {
        lemma_first_match(keys, key, from + 1);
    }
}

/// The texts of a list of character vectors.
pub open spec fn texts(keys: Seq<Vec<char>>) -> Seq<Seq<char>> {
    Seq::new(keys.len(), |i: int| keys[i]@)
}

/// Finds the first position at which `keys` holds `key`.
pub fn find_text(keys: &Vec<Vec<char>>, key: &Vec<char>) -> (r: Option<usize>)
    ensures
        match r {
            Some(i) => first_match(texts(keys@), key@, 0) == Some(i as int),
            None => first_match(texts(keys@), key@, 0) is None,
        },
{
    let mut i: usize = 0;
    while i < keys.len()
        invariant
            i <= keys.len(),
            first_match(texts(keys@), key@, 0) == first_match(texts(keys@), key@, i as int),
        decreases keys.len() - i,
    {
        if same_chars(&keys[i], key) {
            return Some(i);
        }
        i += 1;
    }
    None
}

/// Whether a character is white space, as Unicode defines it.
pub open spec fn is_space(c: char) -> bool {
    ||| '\u{9}' <= c && c <= '\u{d}'
    ||| c == ' '
    ||| c == '\u{85}'
    ||| c == '\u{a0}'
    ||| c == '\u{1680}'
    ||| '\u{2000}' <= c && c <= '\u{200a}'
    ||| c == '\u{2028}'
    ||| c == '\u{2029}'
    ||| c == '\u{202f}'
    ||| c == '\u{205f}'
    ||| c == '\u{3000}'
}

/// How many white space characters `s` starts with.
pub open spec fn leading_spaces(s: Seq<char>) -> int
    decreases s.len(),
{
    if s.len() == 0 || !is_space(s[0]) {
        0
    } else {
        1 + leading_spaces(s.drop_first())
    }
}

/// How many white space characters `s` ends with.
pub open spec fn trailing_spaces(s: Seq<char>) -> int
    decreases s.len(),
{
    if s.len() == 0 || !is_space(s.last()) {
        0
    } else {
        1 + trailing_spaces(s.drop_last())
    }
}

/// The text without the white space at its start and at its end.
pub open spec fn trimmed(s: Seq<char>) -> Seq<char> {
    let start = leading_spaces(s);
    if start >= s.len() {
        Seq::<char>::empty()
    } else {
        s.subrange(start, s.len() - trailing_spaces(s))
    }
}

/// A position with white space only before it, which holds none or ends the
/// text, is where the leading white space ends.
pub proof fn lemma_leading_spaces_is(s: Seq<char>, d: int)
    requires
        0 <= d <= s.len(),
        forall|k: int| 0 <= k < d ==> is_space(s[k]),
        d < s.len() ==> !is_space(s[d]),
    ensures
        leading_spaces(s) == d,
    decreases s.len(),
{
    if s.len() > 0 && is_space(s[0]) {
        lemma_leading_spaces_is(s.drop_first(), d - 1);
    }
}

/// A stretch of white space at the end of a text, with none just before it,
/// is the trailing white space.
pub proof fn lemma_trailing_spaces_is(s: Seq<char>, d: int)
    requires
        0 <= d <= s.len(),
        forall|k: int| s.len() - d <= k < s.len() ==> is_space(s[k]),
        d < s.len() ==> !is_space(s[s.len() - d - 1]),
    ensures
        trailing_spaces(s) == d,
    decreases s.len(),
{
    if s.len() > 0 && is_space(s.last()) {
        lemma_trailing_spaces_is(s.drop_last(), d - 1);
    }
}

/// A text that neither starts nor ends with white space is its own trimmed form.
pub proof fn lemma_trimmed_of_plain(s: Seq<char>)
    requires
        s.len() > 0 ==> !is_space(s[0]) && !is_space(s.last()),
    ensures
        trimmed(s) == s,
{
}

/// Whether a character is white space, as Unicode defines it.
pub fn is_whitespace(c: char) -> (r: bool)
    ensures
        r == is_space(c),
{
    (c >= '\u{9}' && c <= '\u{d}') || c == ' ' || c == '\u{85}' || c == '\u{a0}' || c == '\u{1680}' || (c
        >= '\u{2000}' && c <= '\u{200a}') || c == '\u{2028}' || c == '\u{2029}' || c == '\u{202f}' || c
        == '\u{205f}' || c == '\u{3000}'
}

/// Where the trimmed form of a text starts and ends in it.
pub fn trim_bounds(s: &Vec<char>) -> (r: (usize, usize))
    ensures
        r.0 <= r.1 <= s.len(),
        s@.subrange(r.0 as int, r.1 as int) == trimmed(s@),
{
    let len = s.len();
    let mut start: usize = 0;
    while start < len && is_whitespace(s[start])
        invariant
            start <= len,
            len == s.len(),
            forall|k: int| 0 <= k < start ==> is_space(s@[k]),
        decreases len - start,
    {
        start += 1;
    }
    proof {
        lemma_leading_spaces_is(s@, start as int);
    }
    if start == len {
        return (start, start);
    }
    let mut end: usize = len;
    while end > start + 1 && is_whitespace(s[end - 1])
        invariant
            start < end <= len,
            len == s.len(),
            !is_space(s@[start as int]),
            forall|k: int| end <= k < len ==> is_space(s@[k]),
        decreases end,
    {
        end -= 1;
    }
    proof {
        lemma_trailing_spaces_is(s@, len - end);
    }
    (start, end)
}

/// The text without the white space at its start and at its end.
pub fn trim_text(s: &str) -> (r: String)
    ensures
        r@ == trimmed(s@),
{
    let chars = chars_of(s);
    let (start, end) = trim_bounds(&chars);
    s.substring_char(start, end).to_owned()
}

/// Whether the trimmed form of `s` is `other`.
pub fn trimmed_is(s: &str, other: &str) -> (r: bool)
    ensures
        r == (trimmed(s@) == other@),
{
    let trimmed_text = trim_text(s);
    same_text(trimmed_text.as_str(), other)
}

/// The text of an optional string slice.
pub open spec fn text_of(s: Option<&str>) -> Option<Seq<char>> {
    match s {
        Some(t) => Some(t@),
        None => None,
    }
}

/// Whether `part` stands in `whole` at position `at`.
pub open spec fn occurs_at(whole: Seq<char>, part: Seq<char>, at: int) -> bool {
    0 <= at && at + part.len() <= whole.len() && whole.subrange(at, at + part.len()) == part
}

/// Whether `part` stands somewhere in `whole`.
pub open spec fn contains_text(whole: Seq<char>, part: Seq<char>) -> bool {
    exists|at: int| occurs_at(whole, part, at)
}

/// Whether `whole` ends with `ending`.
pub open spec fn ends_with(whole: Seq<char>, ending: Seq<char>) -> bool {
    occurs_at(whole, ending, whole.len() - ending.len())
}

/// Whether `part` stands in `whole` at position `at`.
pub fn stands_at(whole: &Vec<char>, part: &Vec<char>, at: usize) -> (r: bool)
    requires
        at + part.len() <= whole.len(),
    ensures
        r == occurs_at(whole@, part@, at as int),
{
    let mut k: usize = 0;
    while k < part.len()
        invariant
            k <= part.len(),
            at + part.len() <= whole.len(),
            forall|j: int| 0 <= j < k ==> whole@[at + j] == part@[j],
        decreases part.len() - k,
    {
        if whole[at + k] != part[k] {
            return false;
        }
        k += 1;
    }
    assert(whole@.subrange(at as int, at + part.len()) =~= part@);
    true
}

/// Whether `part` stands somewhere in `whole`.
pub fn has_part(whole: &Vec<char>, part: &Vec<char>) -> (r: bool)
    ensures
        r == contains_text(whole@, part@),
{
    if part.len() == 0 {
        assert(whole@.subrange(0, 0) =~= part@);
        assert(occurs_at(whole@, part@, 0));
        return true;
    }
    if part.len() > whole.len() {
        return false;
    }
    let mut at: usize = 0;
    while at <= whole.len() - part.len()
        invariant
            0 < part.len() <= whole.len(),
            at <= whole.len(),
            forall|j: int| 0 <= j < at ==> !occurs_at(whole@, part@, j),
        decreases whole.len() - at,
    {
        if stands_at(whole, part, at) {
            return true;
        }
        at += 1;
    }
    false
}

/// Whether `whole` ends with `ending`.
pub fn has_ending(whole: &Vec<char>, ending: &Vec<char>) -> (r: bool)
    ensures
        r == ends_with(whole@, ending@),
{
    if ending.len() > whole.len() {
        return false;
    }
    stands_at(whole, ending, whole.len() - ending.len())
}

} // verus!
