//! Upper and lower case, which Unicode's tables define and the standard
//! library holds.

use vstd::prelude::*;
use crate::scan;

verus! {

/// `s` in lower case.
pub uninterp spec fn lowercase(s: Seq<char>) -> Seq<char>;

/// `c` in upper case: one character or, for a few, more.
pub uninterp spec fn uppercase(c: char) -> Seq<char>;

/// `str::to_lowercase`. Its result is what `lowercase` names: it depends on
/// the characters of the string alone. Nothing more is claimed of it.
pub assume_specification[ str::to_lowercase ](s: &str) -> (r: String)
    ensures
        r@ == lowercase(s@),
;

/// `char::to_uppercase`, its characters collected in a string. The result is
/// what `uppercase` names: it depends on the character alone. Nothing more
/// is claimed of it.
#[verifier::external_body]
pub(crate) fn to_uppercase(c: char) -> (r: String)
    ensures
        r@ == uppercase(c),
{
    c.to_uppercase().collect()
}

/// `word` with `initial` in place of its first character; the empty word
/// stays empty.
pub open spec fn replaced_initial(word: Seq<char>, initial: Seq<char>) -> Seq<char> {
    if word.len() == 0 {
        word
    } else {
        initial + word.drop_first()
    }
}

/// `word` with its first character in upper case.
pub open spec fn capitalized(word: Seq<char>) -> Seq<char> {
    if word.len() == 0 {
        word
    } else {
        replaced_initial(word, uppercase(word[0]))
    }
}

/// `word` with `initial` in place of its first character.
pub fn replace_initial(word: &str, initial: &str) -> (r: String)
    ensures
        r@ == replaced_initial(word@, initial@),
{
    let chars = scan::chars_of(word);
    if chars.len() == 0 {
        return String::new();
    }
    let rest = vstd::slice::slice_subrange(chars.as_slice(), 1, chars.len());
    assert(rest@ =~= word@.drop_first());
    let tail = scan::string_of(rest);
    initial.to_owned().concat(tail.as_str())
}

/// `word` with its first character in upper case.
pub fn capitalize(word: &str) -> (r: String)
    ensures
        r@ == capitalized(word@),
{
    let chars = scan::chars_of(word);
    if chars.len() == 0 {
        return String::new();
    }
    let initial = to_uppercase(chars[0]);
    replace_initial(word, initial.as_str())
}

} // verus!
