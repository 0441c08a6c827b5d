//! Comparing the characters of a string slice.

use vstd::prelude::*;
use vstd::string::*;

verus! {

/// Collects the characters of `text` so that they can be indexed in constant time.
pub(crate) fn chars_of(text: &str) -> (chars: Vec<char>)
    ensures
        chars@ == text@,
{
    let mut chars: Vec<char> = Vec::new();
    for c in it: text.chars()
        invariant
            it.seq() == text@,
            chars@ == it.seq().take(it.index() as int),
    {
        chars.push(c);
    }
    chars
}

/// `text` begins with `prefix`.
pub open spec fn has_prefix(text: Seq<char>, prefix: Seq<char>) -> bool {
    prefix.len() <= text.len() && text.take(prefix.len() as int) == prefix
}

/// Whether `chars` begins with `prefix`.
pub(crate) fn starts_with(chars: &Vec<char>, prefix: &str) -> (found: bool)
    ensures
        found == has_prefix(chars@, prefix@),
{
    let wanted = chars_of(prefix);
    if wanted.len() > chars.len() {
        return false;
    }
    let mut i: usize = 0;
    while i < wanted.len()
        invariant
            wanted@ == prefix@,
            wanted.len() <= chars.len(),
            i <= wanted.len(),
            chars@.take(i as int) == wanted@.take(i as int),
        decreases wanted.len() - i,
    {
        if chars[i] != wanted[i] {
            assert(chars@.take(wanted.len() as int)[i as int] != wanted@[i as int]);
            return false;
        }
        assert(chars@.take(i + 1) == chars@.take(i as int).push(chars@[i as int]));
        assert(wanted@.take(i + 1) == wanted@.take(i as int).push(wanted@[i as int]));
        i += 1;
    }
    assert(wanted@.take(wanted.len() as int) == wanted@);
    true
}

/// Whether `chars` is exactly the text `wanted`.
pub(crate) fn same_text(chars: &Vec<char>, wanted: &str) -> (same: bool)
    ensures
        same == (chars@ == wanted@),
{
    let found = starts_with(chars, wanted);
    let length = wanted.unicode_len();
    assert(chars@.take(chars.len() as int) == chars@);
    found && chars.len() == length
}

} // verus!
