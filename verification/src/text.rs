//! Plain questions about text: its characters, and whether a word stands at
//! a place in it.

use vstd::prelude::*;
use vstd::string::*;

verus! {

/// Does `word` stand in `s` at index `at`?
pub open spec fn stands_at(s: Seq<char>, at: int, word: Seq<char>) -> bool {
    0 <= at && at + word.len() <= s.len() && s.subrange(at, at + word.len()) == word
}

/// The characters of `text`, one by one.
pub(crate) fn chars_of(text: &str) -> (chars: Vec<char>)
    ensures
        chars@ == text@,
{
    let mut chars: Vec<char> = Vec::new();
    for c in it: text.chars()
        invariant
            chars@ == it.seq().take(it.index()),
    {
        chars.push(c);
    }
    chars
}

/// Does `word` stand in `chars` at index `at`?
pub(crate) fn word_at(chars: &Vec<char>, at: usize, word: &str) -> (found: bool)
    requires
        at <= chars.len(),
    ensures
        found == stands_at(chars@, at as int, word@),
{
    let letters = chars_of(word);
    if chars.len() - at < letters.len() {
        return false;
    }
    let ghost part = chars@.subrange(at as int, at + letters.len());
    let mut i: usize = 0;
    while i < letters.len()
        invariant
            i <= letters.len(),
            at + letters.len() <= chars.len(),
            letters@ == word@,
            part == chars@.subrange(at as int, at + letters.len()),
            forall|j: int| 0 <= j < i ==> part[j] == letters[j],
        decreases letters.len() - i,
    {
        if chars[at + i] != letters[i] {
            return false;
        }
        i = i + 1;
    }
    assert(part =~= letters@);
    true
}

/// Are `text` and `word` the same characters?
pub(crate) fn same_text(text: &str, word: &str) -> (same: bool)
    ensures
        same == (text@ == word@),
{
    let chars = chars_of(text);
    let found = word_at(&chars, 0, word);
    assert(chars@.subrange(0, chars@.len() as int) =~= chars@);
    found && chars.len() == word.unicode_len()
}

} // verus!
