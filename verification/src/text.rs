//! Looking for a word in a text, both as bytes.

use vstd::prelude::*;

verus! {

/// Whether `word` stands in `text` from the place `at` on.
pub open spec fn occurs_at(text: Seq<u8>, word: Seq<u8>, at: int) -> bool {
    &&& 0 <= at
    &&& at + word.len() <= text.len()
    &&& forall|k: int| 0 <= k < word.len() ==> #[trigger] text[at + k] == word[k]
}

/// Whether `word` stands somewhere in `text`.
pub open spec fn mentions(text: Seq<u8>, word: Seq<u8>) -> bool {
    exists|at: int| #[trigger] occurs_at(text, word, at)
}

/// Decides whether `word` stands in `text` from the place `at` on.
pub fn stands_at(text: &Vec<u8>, word: &Vec<u8>, at: usize) -> (found: bool)
    ensures
        found == occurs_at(text@, word@, at as int),
{
    if word.len() > text.len() || at > text.len() - word.len() {
        return false;
    }
    let mut k: usize = 0;
    while k < word.len()
        invariant
            k <= word.len(),
            at + word.len() <= text.len(),
            forall|j: int| 0 <= j < k ==> #[trigger] text@[at + j] == word@[j],
        decreases word.len() - k,
    {
        if text[at + k] != word[k] {
            assert(text@[at + k] != word@[k as int]);
            return false;
        }
        k += 1;
    }
    true
}

/// Decides whether `word` stands somewhere in `text`.
pub fn mentions_word(text: &Vec<u8>, word: &Vec<u8>) -> (found: bool)
    ensures
        found == mentions(text@, word@),
{
    if word.len() > text.len() {
        assert forall|at: int| !occurs_at(text@, word@, at) by {}
        return false;
    }
    let last: usize = text.len() - word.len();
    let mut at: usize = 0;
    while at <= last
        invariant
            at <= last + 1,
            last == text.len() - word.len(),
            forall|before: int| 0 <= before < at ==> !occurs_at(text@, word@, before),
        decreases last + 1 - at,
    {
        if stands_at(text, word, at) {
            return true;
        }
        at += 1;
    }
    assert forall|anywhere: int| !occurs_at(text@, word@, anywhere) by {
        if occurs_at(text@, word@, anywhere) {
            assert(0 <= anywhere < at);
        }
    }
    false
}

} // verus!
