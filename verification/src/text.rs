//! Comparison and search on the characters of strings.

use vstd::prelude::*;

verus! {

/// `needle` stands in `haystack`, character for character, starting at index `at`.
pub open spec fn occurs_at(needle: Seq<char>, haystack: Seq<char>, at: int) -> bool {
    &&& 0 <= at
    &&& at + needle.len() <= haystack.len()
    &&& haystack.subrange(at, at + needle.len()) == needle
}

/// `needle` is a contiguous part of `haystack`. The empty sequence is part of
/// every sequence.
pub open spec fn occurs_in(needle: Seq<char>, haystack: Seq<char>) -> bool {
    exists|at: int| occurs_at(needle, haystack, at)
}

/// The characters of `s`, in order.
pub fn chars_of(s: &str) -> (chars: Vec<char>)
    ensures
        chars@ == s@,
{
    let mut chars: Vec<char> = Vec::new();
    for c in it: s.chars()
        invariant
            chars@ == it.seq().take(it.index() as int),
    {
        chars.push(c);
    }
    chars
}

/// Whether `needle` stands in `haystack` at index `at`.
fn found_at(needle: &Vec<char>, haystack: &Vec<char>, at: usize) -> (found: bool)
    requires
        at + needle.len() <= haystack.len(),
    ensures
        found == occurs_at(needle@, haystack@, at as int),
{
    let len = needle.len();
    let mut i: usize = 0;
    while i < len
        invariant
            i <= len,
            len == needle.len(),
            at + len <= haystack.len(),
            forall|k: int| 0 <= k < i ==> haystack@[at + k] == needle@[k],
        decreases len - i,
    {
        if haystack[at + i] != needle[i] {
            return false;
        }
        i += 1;
    }
    assert(haystack@.subrange(at as int, at + len) =~= needle@);
    true
}

/// Whether `a` and `b` hold the same characters.
pub fn same_text(a: &str, b: &str) -> (same: bool)
    ensures
        same == (a@ == b@),
{
    let left = chars_of(a);
    let right = chars_of(b);
    if left.len() != right.len() {
        return false;
    }
    let same = found_at(&left, &right, 0);
    assert(right@.subrange(0, right@.len() as int) =~= right@);
    same
}

/// Whether `needle` is a contiguous part of `haystack`: what `str::contains`
/// answers for a string pattern.
pub fn contains_text(haystack: &str, needle: &str) -> (found: bool)
    ensures
        found == occurs_in(needle@, haystack@),
{
    let hay = chars_of(haystack);
    let pin = chars_of(needle);
    if pin.len() == 0 {
        assert(hay@.subrange(0, 0) =~= pin@);
        assert(occurs_at(pin@, hay@, 0));
        return true;
    }
    if pin.len() > hay.len() {
        return false;
    }
    let last = hay.len() - pin.len();
    let mut at: usize = 0;
    while at <= last
        invariant
            hay@ == haystack@,
            pin@ == needle@,
            at <= last + 1,
            last + pin.len() == hay.len(),
            0 < pin.len(),
            forall|k: int| 0 <= k < at ==> !occurs_at(pin@, hay@, k),
        decreases last + 1 - at,
    {
        if found_at(&pin, &hay, at) {
            return true;
        }
        at += 1;
    }
    false
}

} // verus!
