//! Looking for words in texts.
use vstd::prelude::*;

verus! {

/// `word` stands at place `at` of `text`.
pub open spec fn stands_at(text: Seq<char>, word: Seq<char>, at: int) -> bool {
    &&& 0 <= at
    &&& at + word.len() <= text.len()
    &&& text.subrange(at, at + word.len()) == word
}

/// `word` stands somewhere in `text`.
pub open spec fn mentions(text: Seq<char>, word: Seq<char>) -> bool {
    exists|at: int| stands_at(text, word, at)
}

/// Whether `word` stands somewhere in `text`.
pub fn text_mentions(text: &str, word: &str) -> (found: bool)
    ensures
        found == mentions(text@, word@),
{
    let text_len: usize = text.unicode_len();
    let word_len: usize = word.unicode_len();
    if word_len > text_len {
        return false;
    }
    let mut at: usize = 0;
    while at <= text_len - word_len
        invariant
            text_len == text@.len(),
            word_len == word@.len(),
            word_len <= text_len,
            at <= text_len - word_len + 1,
            forall|i: int| 0 <= i < at ==> !stands_at(text@, word@, i),
        decreases text_len - word_len + 1 - at,
    {
        let mut i: usize = 0;
        while i < word_len && text.get_char(at + i) == word.get_char(i)
            invariant
                text_len == text@.len(),
                word_len == word@.len(),
                at + word_len <= text_len,
                i <= word_len,
                forall|j: int| 0 <= j < i ==> text@[at + j] == word@[j],
            decreases word_len - i,
        {
            i += 1;
        }
        if i == word_len {
            assert(text@.subrange(at as int, at + word@.len()) =~= word@);
            assert(stands_at(text@, word@, at as int));
            return true;
        }
        assert(text@.subrange(at as int, at + word@.len())[i as int] != word@[i as int]);
        at += 1;
    }
    false
}

/// A text mentions every word that it was put together with, and a word that it mentions can be read
/// off it letter by letter.
pub proof fn law_texts_mention_their_words(before: Seq<char>, word: Seq<char>, after: Seq<char>)
    ensures
        mentions(before + word + after, word),
        mentions(before, word) <==> exists|at: int|
            0 <= at && at + word.len() <= before.len() && (forall|i: int|
                0 <= i < word.len() ==> #[trigger] word[i] == before[at + i])
                && #[trigger] stands_at(before, word, at),
        mentions(before, word) ==> word.len() <= before.len(),
{
    let text = before + word + after;
    let at = before.len() as int;
    assert(text.subrange(at, at + word.len()) =~= word);
    assert(stands_at(text, word, at));
    if mentions(before, word) {
        let place = choose|place: int| stands_at(before, word, place);
        assert forall|i: int| 0 <= i < word.len() implies #[trigger] word[i] == before[place + i] by {
            assert(before.subrange(place, place + word.len())[i] == word[i]);
        }
    }
}

} // verus!
