//! Words and prefixes of plain text.
use vstd::prelude::*;
use vstd::string::*;

verus! {

/// Whether the text begins with the word.
fn begins_with(text: &str, word: &str) -> (r: bool)
    ensures
        r == word@.is_prefix_of(text@),
{
    let length: usize = word.unicode_len();
    if text.unicode_len() < length {
        return false;
    }
    let mut index: usize = 0;
    while index < length
        invariant
            index <= length,
            length == word@.len(),
            length <= text@.len(),
            forall|i: int| 0 <= i < index ==> text@[i] == word@[i],
        decreases length - index,
    {
        if text.get_char(index) != word.get_char(index) {
            assert(text@.subrange(0, length as int)[index as int] != word@[index as int]);
            return false;
        }
        index = index + 1;
    }
    assert(text@.subrange(0, length as int) =~= word@);
    true
}

/// Whether the text is the word.
pub fn is_word(text: &str, word: &str) -> (r: bool)
    ensures
        r == (text@ == word@),
{
    let same = begins_with(text, word) && text.unicode_len() == word.unicode_len();
    proof {
        if same {
            assert(text@ =~= word@);
        }
    }
    same
}

/// The text behind a prefix.
pub open spec fn behind(text: Seq<char>, prefix: Seq<char>) -> Option<Seq<char>> {
    if prefix.is_prefix_of(text) { Some(text.skip(prefix.len() as int)) } else { None }
}

pub fn strip_prefix<'a>(text: &'a str, prefix: &str) -> (r: Option<&'a str>)
    ensures
        match behind(text@, prefix@) {
            Some(rest) => r matches Some(found) && found@ == rest,
            None => r is None,
        },
{
    if !begins_with(text, prefix) {
        return None;
    }
    let rest = text.substring_char(prefix.unicode_len(), text.unicode_len());
    assert(rest@ =~= text@.skip(prefix@.len() as int));
    Some(rest)
}

} // verus!
