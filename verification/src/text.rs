//! Text as sequences of characters: the conversions and the small searches
//! that the rest of the library builds paths and parses files with.

use vstd::prelude::*;
use vstd::string::*;

verus! {

/// `String::push` appends one character at the end of the string.
pub assume_specification[ String::push ](s: &mut String, ch: char)
    ensures
        final(s)@ == old(s)@.push(ch),
;

/// `==` on `str` holds exactly of two texts with the same characters.
pub assume_specification[ <str as PartialEq>::eq ](a: &str, b: &str) -> (same: bool)
    ensures
        same == (a@ == b@),
;

/// The characters of `s`, in order.
pub fn chars_of(s: &str) -> (out: Vec<char>)
    ensures
        out@ == s@,
{
    let mut out: Vec<char> = Vec::new();
    for c in it: s.chars()
        invariant
            out@ == it.seq().take(it.index()),
            it.seq() == s@,
    {
        out.push(c);
    }
    out
}

/// The string made of the characters of `chars`, in order.
pub fn string_of(chars: &Vec<char>) -> (out: String)
    ensures
        out@ == chars@,
{
    let mut out = String::new();
    let mut i: usize = 0;
    while i < chars.len()
        invariant
            i <= chars.len(),
            out@ == chars@.take(i as int),
        decreases chars.len() - i,
    {
        out.push(chars[i]);
        i += 1;
    }
    out
}

/// The characters of `text` from `from` up to `to`, as a string.
pub(crate) fn part(text: &Vec<char>, from: usize, to: usize) -> (out: String)
    requires
        from <= to <= text.len(),
    ensures
        out@ == text@.subrange(from as int, to as int),
{
    let mut out: Vec<char> = Vec::new();
    let mut i = from;
    while i < to
        invariant
            from <= i <= to <= text.len(),
            out@ == text@.subrange(from as int, i as int),
        decreases to - i,
    {
        out.push(text[i]);
        i += 1;
        assert(out@ =~= text@.subrange(from as int, i as int));
    }
    string_of(&out)
}

/// The text of an optional string.
pub open spec fn optional_text(s: Option<String>) -> Option<Seq<char>> {
    match s {
        Some(t) => Some(t@),
        None => None,
    }
}

/// The texts of a list of strings.
pub open spec fn texts(list: Seq<String>) -> Seq<Seq<char>> {
    Seq::new(list.len(), |i: int| list[i]@)
}

/// Whether `wanted` is the text of one of the strings of `list`.
pub fn holds_text(list: &Vec<String>, wanted: &str) -> (found: bool)
    ensures
        found == texts(list@).contains(wanted@),
{
    let mut i: usize = 0;
    while i < list.len()
        invariant
            i <= list.len(),
            !texts(list@).take(i as int).contains(wanted@),
        decreases list.len() - i,
    {
        if list[i].as_str().eq(wanted) {
            assert(texts(list@)[i as int] == wanted@);
            return true;
        }
        proof {
            let before = texts(list@).take(i as int);
            let after = texts(list@).take(i + 1);
            assert forall|k: int| 0 <= k < after.len() implies after[k] != wanted@ by {
                if k < i {
                    assert(before[k] == after[k]);
                    assert(before.contains(before[k]));
                }
            }
        }
        i += 1;
    }
    proof {
        assert(texts(list@).take(list.len() as int) == texts(list@));
    }
    false
}

/// `text` without the occurrences of `pattern`, found from the left, each
/// beginning after the end of the one before. An empty pattern occurs
/// nowhere.
pub open spec fn without(text: Seq<char>, pattern: Seq<char>) -> Seq<char>
    decreases text.len(),
{
    if text.len() == 0 {
        Seq::empty()
    } else if pattern.len() > 0 && pattern.is_prefix_of(text) {
        without(text.subrange(pattern.len() as int, text.len() as int), pattern)
    } else {
        seq![text[0]] + without(text.subrange(1, text.len() as int), pattern)
    }
}

/// Whether `pattern` stands in `text` at index `at`.
pub fn stands_at(text: &Vec<char>, at: usize, pattern: &Vec<char>) -> (yes: bool)
    ensures
        yes == (at <= text.len() && pattern@.is_prefix_of(
            text@.subrange(at as int, text.len() as int),
        )),
{
    if at > text.len() || pattern.len() > text.len() - at {
        return false;
    }
    let ghost rest = text@.subrange(at as int, text.len() as int);
    let mut k: usize = 0;
    while k < pattern.len()
        invariant
            k <= pattern.len(),
            at <= text.len(),
            pattern.len() <= text.len() - at,
            rest == text@.subrange(at as int, text.len() as int),
            forall|j: int| 0 <= j < k ==> pattern[j] == rest[j],
        decreases pattern.len() - k,
    {
        if pattern[k] != text[at + k] {
            assert(rest[k as int] == text[at + k]);
            assert(rest.subrange(0, pattern.len() as int)[k as int] != pattern[k as int]);
            return false;
        }
        assert(rest[k as int] == text[at + k]);
        k += 1;
    }
    assert(pattern@ =~= rest.subrange(0, pattern.len() as int));
    true
}

/// Whether `text` begins with `prefix`.
pub fn has_prefix(text: &str, prefix: &str) -> (yes: bool)
    ensures
        yes == prefix@.is_prefix_of(text@),
{
    let text = chars_of(text);
    let prefix = chars_of(prefix);
    assert(text@.subrange(0, text.len() as int) =~= text@);
    stands_at(&text, 0, &prefix)
}

/// `text` without the occurrences of `pattern`.
pub fn remove_all(text: &str, pattern: &str) -> (out: String)
    ensures
        out@ == without(text@, pattern@),
{
    let text = chars_of(text);
    let pattern = chars_of(pattern);
    let mut out: Vec<char> = Vec::new();
    let mut i: usize = 0;
    assert(text@.subrange(0, text.len() as int) =~= text@);
    assert(out@ + without(text@, pattern@) =~= without(text@, pattern@));
    while i < text.len()
        invariant
            i <= text.len(),
            without(text@, pattern@) == out@ + without(
                text@.subrange(i as int, text.len() as int),
                pattern@,
            ),
        decreases text.len() - i,
    {
        let ghost rest = text@.subrange(i as int, text.len() as int);
        if pattern.len() > 0 && stands_at(&text, i, &pattern) {
            proof {
                assert(rest.subrange(pattern.len() as int, rest.len() as int) =~= text@.subrange(
                    i + pattern.len(),
                    text.len() as int,
                ));
            }
            i += pattern.len();
        } else {
            proof {
                assert(rest[0] == text[i as int]);
                assert(rest.subrange(1, rest.len() as int) =~= text@.subrange(
                    i + 1,
                    text.len() as int,
                ));
                assert(out@ + (seq![rest[0]] + without(
                    text@.subrange(i + 1, text.len() as int),
                    pattern@,
                )) =~= out@.push(text[i as int]) + without(
                    text@.subrange(i + 1, text.len() as int),
                    pattern@,
                ));
            }
            out.push(text[i]);
            i += 1;
        }
    }
    assert(out@ + Seq::<char>::empty() =~= out@);
    string_of(&out)
}

} // verus!
