//! Comparing and searching identity strings, character by character.

use vstd::prelude::*;
use vstd::string::StrSliceExecFns;

verus! {

/// `pattern` occurs in `text` starting at position `at`.
pub open spec fn occurs_at(text: Seq<char>, pattern: Seq<char>, at: int) -> bool {
    &&& 0 <= at
    &&& at + pattern.len() <= text.len()
    &&& text.subrange(at, at + pattern.len()) == pattern
}

/// `pattern` occurs somewhere in `text`.
pub open spec fn occurs_in(text: Seq<char>, pattern: Seq<char>) -> bool {
    exists|at: int| occurs_at(text, pattern, at)
}

/// The characters of a string slice, in order.
pub fn chars_of(text: &str) -> (chars: Vec<char>)
    ensures
        chars@ == text@,
{
    let len: usize = text.unicode_len();
    let mut chars: Vec<char> = Vec::new();
    let mut i: usize = 0;
    while i < len
        invariant
            len == text@.len(),
            i <= len,
            chars@ == text@.subrange(0, i as int),
        decreases len - i,
    {
        chars.push(text.get_char(i));
        i += 1;
    }
    chars
}

/// Whether `pattern` starts at position `at` of `text`.
fn matches_at(text: &Vec<char>, pattern: &Vec<char>, at: usize) -> (found: bool)
    requires
        at + pattern.len() <= text.len(),
    ensures
        found == occurs_at(text@, pattern@, at as int),
{
    let mut j: usize = 0;
    while j < pattern.len()
        invariant
            at + pattern.len() <= text.len(),
            j <= pattern.len(),
            text@.subrange(at as int, at + j) == pattern@.subrange(0, j as int),
        decreases pattern.len() - j,
    {
        if text[at + j] != pattern[j] {
            proof {
                let window = text@.subrange(at as int, at + pattern.len());
                assert(window[j as int] != pattern@[j as int]);
            }
            return false;
        }
        proof {
            assert(text@.subrange(at as int, at + j + 1) == text@.subrange(at as int, at + j).push(
                text@[at + j],
            ));
            assert(pattern@.subrange(0, j + 1) == pattern@.subrange(0, j as int).push(
                pattern@[j as int],
            ));
        }
        j += 1;
    }
    proof {
        assert(pattern@.subrange(0, pattern.len() as int) == pattern@);
    }
    true
}

/// Whether two string slices hold the same characters.
pub fn same_text(left: &str, right: &str) -> (same: bool)
    ensures
        same == (left@ == right@),
{
    let a: Vec<char> = chars_of(left);
    let b: Vec<char> = chars_of(right);
    if a.len() != b.len() {
        return false;
    }
    let found: bool = matches_at(&a, &b, 0);
    proof {
        assert(a@.subrange(0, b.len() as int) == a@);
    }
    found
}

/// Whether `pattern` occurs somewhere in `text`. The empty pattern occurs in
/// every text.
pub fn contains_text(text: &str, pattern: &str) -> (found: bool)
    ensures
        found == occurs_in(text@, pattern@),
{
    let a: Vec<char> = chars_of(text);
    let b: Vec<char> = chars_of(pattern);
    if b.len() > a.len() {
        return false;
    }
    let last: usize = a.len() - b.len();
    let mut at: usize = 0;
    loop
        invariant
            a@ == text@,
            b@ == pattern@,
            last == a.len() - b.len(),
            at <= last,
            forall|k: int| 0 <= k < at ==> !occurs_at(a@, b@, k),
        decreases last - at,
    {
        if matches_at(&a, &b, at) {
            return true;
        }
        if at == last {
            return false;
        }
        at += 1;
    }
}

} // verus!
