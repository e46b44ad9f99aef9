//! Character-level text utilities: conversion between strings and character
//! vectors, whitespace trimming, line splitting and prefix tests.
//!
//! Everything here works on `Vec<char>` and is specified over `Seq<char>`.

use vstd::prelude::*;
use vstd::std_specs::iter::IteratorSpec;

verus! {

/// Whether `c` has the Unicode `White_Space` property.
pub open spec fn is_white_space(c: char) -> bool {
    let u = c as u32;
    ||| 0x09 <= u <= 0x0D
    ||| u == 0x20
    ||| u == 0x85
    ||| u == 0xA0
    ||| u == 0x1680
    ||| 0x2000 <= u <= 0x200A
    ||| u == 0x2028
    ||| u == 0x2029
    ||| u == 0x202F
    ||| u == 0x205F
    ||| u == 0x3000
}

/// `s` without its leading white space.
pub open spec fn trimmed_start(s: Seq<char>) -> Seq<char>
    decreases s.len(),
{
    if s.len() > 0 && is_white_space(s.first()) {
        trimmed_start(s.drop_first())
    } else {
        s
    }
}

/// `s` without its trailing white space.
pub open spec fn trimmed_end(s: Seq<char>) -> Seq<char>
    decreases s.len(),
{
    if s.len() > 0 && is_white_space(s.last()) {
        trimmed_end(s.drop_last())
    } else {
        s
    }
}

/// `s` without leading and trailing white space.
pub open spec fn trimmed(s: Seq<char>) -> Seq<char> {
    trimmed_end(trimmed_start(s))
}

/// The lines of `s`: every `'\n'` ends the current line and begins a new one, so a text with
/// `n` newlines has `n + 1` lines, the last of which may be empty. Carriage returns are left in
/// place; they are white space and disappear when a line is trimmed.
pub open spec fn lines_of(s: Seq<char>) -> Seq<Seq<char>>
    decreases s.len(),
{
    if s.len() == 0 {
        seq![Seq::<char>::empty()]
    } else {
        let before = lines_of(s.drop_last());
        if s.last() == '\n' {
            before.push(Seq::<char>::empty())
        } else {
            before.drop_last().push(before.last().push(s.last()))
        }
    }
}

/// The test that a character is neither `a` nor `b`.
pub open spec fn neither(a: char, b: char) -> spec_fn(char) -> bool {
    |c: char| c != a && c != b
}

/// `s` with every occurrence of `a` and of `b` removed.
pub open spec fn without(s: Seq<char>, a: char, b: char) -> Seq<char> {
    s.filter(neither(a, b))
}

/// Whether `s` begins with `prefix`.
pub open spec fn begins_with(s: Seq<char>, prefix: Seq<char>) -> bool {
    prefix.len() <= s.len() && s.subrange(0, prefix.len() as int) == prefix
}

/// The views of the strings of `v`, in order.
pub open spec fn views_of(v: Seq<String>) -> Seq<Seq<char>> {
    Seq::new(v.len(), |i: int| v[i]@)
}

/// The views of the character vectors of `v`, in order.
pub open spec fn char_views_of(v: Seq<Vec<char>>) -> Seq<Seq<char>> {
    Seq::new(v.len(), |i: int| v[i]@)
}

proof fn lemma_trimmed_start_is_suffix(s: Seq<char>, k: int)
    requires
        0 <= k <= s.len(),
        forall|j: int| 0 <= j < k ==> is_white_space(#[trigger] s[j]),
        k == s.len() || !is_white_space(s[k]),
    ensures
        trimmed_start(s) == s.subrange(k, s.len() as int),
    decreases k,
{
    if k == 0 {
        assert(s.subrange(0, s.len() as int) == s);
    } else {
        let t = s.drop_first();
        assert forall|j: int| 0 <= j < k - 1 implies is_white_space(#[trigger] t[j]) by {
            assert(t[j] == s[j + 1]);
        }
        lemma_trimmed_start_is_suffix(t, k - 1);
        assert(t.subrange(k - 1, t.len() as int) == s.subrange(k, s.len() as int));
    }
}

proof fn lemma_trimmed_end_is_prefix(s: Seq<char>, k: int)
    requires
        0 <= k <= s.len(),
        forall|j: int| k <= j < s.len() ==> is_white_space(#[trigger] s[j]),
        k == 0 || !is_white_space(s[k - 1]),
    ensures
        trimmed_end(s) == s.subrange(0, k),
    decreases s.len() - k,
{
    if k == s.len() {
        assert(s.subrange(0, s.len() as int) == s);
    } else {
        let t = s.drop_last();
        lemma_trimmed_end_is_prefix(t, k);
        assert(t.subrange(0, k) == s.subrange(0, k));
    }
}

/// The characters of `s`, in order.
pub fn chars_of(s: &str) -> (v: Vec<char>)
    ensures
        v@ == s@,
{
    broadcast use vstd::string::group_string_axioms;

    let mut v: Vec<char> = Vec::new();
    let mut it = s.chars();
    loop
        invariant
            v@ + it.remaining() == s@,
        ensures
            v@ == s@,
        decreases s@.len() - v@.len(),
    {
        match it.next() {
            Some(c) => {
                v.push(c);
            },
            None => {
                break ;
            },
        }
    }
    v
}

/// Collects characters into a `String` with std's `FromIterator<&char> for String`: the string
/// holds exactly the characters of `chars`, in order.
#[verifier::external_body]
pub(crate) fn string_from_chars(chars: &Vec<char>) -> (s: String)
    ensures
        s@ == chars@,
{
    chars.iter().collect()
}

/// Whether `c` is Unicode white space.
pub fn is_whitespace(c: char) -> (r: bool)
    ensures
        r == is_white_space(c),
{
    let u: u32 = c as u32;
    (0x09 <= u && u <= 0x0D) || u == 0x20 || u == 0x85 || u == 0xA0 || u == 0x1680 || (0x2000 <= u
        && u <= 0x200A) || u == 0x2028 || u == 0x2029 || u == 0x202F || u == 0x205F || u == 0x3000
}

/// The characters of `chars` from index `from` up to, not including, index `to`.
pub fn slice_of(chars: &Vec<char>, from: usize, to: usize) -> (r: Vec<char>)
    requires
        from <= to <= chars.len(),
    ensures
        r@ == chars@.subrange(from as int, to as int),
{
    let mut r: Vec<char> = Vec::new();
    let mut i: usize = from;
    while i < to
        invariant
            from <= i <= to <= chars.len(),
            r@ == chars@.subrange(from as int, i as int),
        decreases to - i,
    {
        r.push(chars[i]);
        i += 1;
    }
    r
}

/// `chars` without leading and trailing white space.
pub fn trim(chars: &Vec<char>) -> (r: Vec<char>)
    ensures
        r@ == trimmed(chars@),
{
    let n: usize = chars.len();
    let mut start: usize = 0;
    while start < n && is_whitespace(chars[start])
        invariant
            start <= n == chars.len(),
            forall|j: int| 0 <= j < start ==> is_white_space(#[trigger] chars@[j]),
        decreases n - start,
    {
        start += 1;
    }
    let mut end: usize = n;
    while end > start && is_whitespace(chars[end - 1])
        invariant
            start <= end <= n == chars.len(),
            forall|j: int| end <= j < n ==> is_white_space(#[trigger] chars@[j]),
        decreases end,
    {
        end -= 1;
    }
    proof {
        lemma_trimmed_start_is_suffix(chars@, start as int);
        let rest = chars@.subrange(start as int, n as int);
        assert forall|j: int| end - start <= j < rest.len() implies is_white_space(
            #[trigger] rest[j],
        ) by {
            assert(rest[j] == chars@[j + start]);
        }
        lemma_trimmed_end_is_prefix(rest, end - start);
        assert(rest.subrange(0, end - start) == chars@.subrange(start as int, end as int));
    }
    slice_of(chars, start, end)
}

/// Splits `chars` at every `'\n'`.
pub fn split_lines(chars: &Vec<char>) -> (r: Vec<Vec<char>>)
    ensures
        char_views_of(r@) == lines_of(chars@),
{
    let mut done: Vec<Vec<char>> = Vec::new();
    let mut current: Vec<char> = Vec::new();
    let mut i: usize = 0;
    while i < chars.len()
        invariant
            i <= chars.len(),
            char_views_of(done@).push(current@) == lines_of(chars@.subrange(0, i as int)),
        decreases chars.len() - i,
    {
        let c = chars[i];
        proof {
            let next = chars@.subrange(0, i + 1);
            assert(next.drop_last() == chars@.subrange(0, i as int));
            assert(next.last() == c);
            let before = char_views_of(done@).push(current@);
            assert(before.drop_last() == char_views_of(done@));
            assert(before.last() == current@);
        }
        if c == '\n' {
            let ghost old_done = done@;
            done.push(current);
            current = Vec::new();
            assert(char_views_of(done@) == char_views_of(old_done).push(done@.last()@));
        } else {
            current.push(c);
        }
        i += 1;
    }
    proof {
        assert(chars@.subrange(0, i as int) == chars@);
    }
    let ghost old_done = done@;
    done.push(current);
    assert(char_views_of(done@) == char_views_of(old_done).push(done@.last()@));
    done
}

/// `chars` with every occurrence of `a` and of `b` removed.
pub fn remove_chars(chars: &Vec<char>, a: char, b: char) -> (r: Vec<char>)
    ensures
        r@ == without(chars@, a, b),
{
    let mut r: Vec<char> = Vec::new();
    let mut i: usize = 0;
    while i < chars.len()
        invariant
            i <= chars.len(),
            r@ == chars@.subrange(0, i as int).filter(neither(a, b)),
        decreases chars.len() - i,
    {
        let c = chars[i];
        proof {
            let next = chars@.subrange(0, i + 1);
            assert(next.drop_last() == chars@.subrange(0, i as int));
            reveal(Seq::filter);
        }
        if c != a && c != b {
            r.push(c);
        }
        i += 1;
    }
    proof {
        assert(chars@.subrange(0, i as int) == chars@);
    }
    r
}

/// Whether `chars` begins with `prefix`.
pub fn starts_with(chars: &Vec<char>, prefix: &Vec<char>) -> (r: bool)
    ensures
        r == begins_with(chars@, prefix@),
{
    if prefix.len() > chars.len() {
        return false;
    }
    let mut i: usize = 0;
    while i < prefix.len()
        invariant
            i <= prefix.len() <= chars.len(),
            chars@.subrange(0, i as int) == prefix@.subrange(0, i as int),
        decreases prefix.len() - i,
    {
        if chars[i] != prefix[i] {
            proof {
                let p = chars@.subrange(0, prefix.len() as int);
                assert(p[i as int] != prefix@[i as int]);
            }
            return false;
        }
        proof {
            assert(chars@.subrange(0, i + 1) == chars@.subrange(0, i as int).push(chars@[i as int]));
            assert(prefix@.subrange(0, i + 1) == prefix@.subrange(0, i as int).push(
                prefix@[i as int],
            ));
        }
        i += 1;
    }
    proof {
        assert(prefix@.subrange(0, i as int) == prefix@);
    }
    true
}

} // verus!
