//! Text as sequences of characters.
//!
//! Strings are compared and described by the characters they hold. This module
//! moves between `String` and `Vec<char>` and holds the one rewriting rule of
//! the client: how a reply of the backend is tidied before it is shown.

use vstd::prelude::*;
use vstd::string::*;

verus! {

/// `String::push` of the standard library: the character is added at the end
/// and the characters before it stay as they were.
pub assume_specification[ String::push ](text: &mut String, ch: char)
    ensures
        final(text)@ == old(text)@.push(ch),
;

/// The characters of `text`, in order.
pub fn chars_of(text: &str) -> (chars: Vec<char>)
    ensures
        chars@ == text@,
{
    let mut chars: Vec<char> = Vec::new();
    for c in rest: text.chars()
        invariant
            rest.seq() == text@,
            chars@ == text@.take(rest.index() as int),
    {
        chars.push(c);
    }
    chars
}

/// The string that holds exactly the characters of `chars`, in order.
pub fn string_of(chars: &Vec<char>) -> (text: String)
    ensures
        text@ == chars@,
{
    let mut text = String::new();
    let mut i: usize = 0;
    while i < chars.len()
        invariant
            i <= chars.len(),
            text@ == chars@.take(i as int),
        decreases chars.len() - i,
    {
        text.push(chars[i]);
        i = i + 1;
    }
    text
}

/// A copy of `text`.
pub fn copy_of(text: &String) -> (copy: String)
    ensures
        copy@ == text@,
{
    text.clone()
}

/// `text` with every pair of line breaks that stand side by side replaced by
/// one line break, read from the left and never using a line break twice.
pub open spec fn collapse_line_breaks(text: Seq<char>) -> Seq<char>
    decreases text.len(),
{
    if text.len() == 0 {
        text
    } else if text.len() >= 2 && text[0] == '\n' && text[1] == '\n' {
        seq!['\n'] + collapse_line_breaks(text.skip(2))
    } else {
        seq![text[0]] + collapse_line_breaks(text.skip(1))
    }
}

/// `text` without its last character, if that is a line break.
pub open spec fn trim_line_break(text: Seq<char>) -> Seq<char> {
    if text.len() > 0 && text.last() == '\n' {
        text.drop_last()
    } else {
        text
    }
}

/// A reply of the backend as the transcript shows it: doubled line breaks
/// collapsed, then one closing line break removed.
pub open spec fn normalized(text: Seq<char>) -> Seq<char> {
    trim_line_break(collapse_line_breaks(text))
}

/// Tidies a reply of the backend for the transcript.
pub fn normalize_response(text: &str) -> (tidy: String)
    ensures
        tidy@ == normalized(text@),
{
    let source = chars_of(text);
    let mut kept: Vec<char> = Vec::new();
    let mut i: usize = 0;
    assert(source@.skip(0) == source@);
    while i < source.len()
        invariant
            i <= source.len(),
            source@ == text@,
            kept@ + collapse_line_breaks(source@.skip(i as int)) == collapse_line_breaks(source@),
        decreases source.len() - i,
    {
        let ghost rest = source@.skip(i as int);
        if source[i] == '\n' && i + 1 < source.len() && source[i + 1] == '\n' {
            assert(rest.skip(2) == source@.skip(i + 2));
            assert(kept@.push('\n') + collapse_line_breaks(rest.skip(2)) == kept@
                + collapse_line_breaks(rest));
            kept.push('\n');
            i = i + 2;
        } else {
            assert(rest.skip(1) == source@.skip(i + 1));
            assert(kept@.push(source@[i as int]) + collapse_line_breaks(rest.skip(1)) == kept@
                + collapse_line_breaks(rest));
            kept.push(source[i]);
            i = i + 1;
        }
    }
    assert(kept@ == collapse_line_breaks(source@));
    let n: usize = kept.len();
    if n > 0 && kept[n - 1] == '\n' {
        kept.pop();
    }
    string_of(&kept)
}

/// Whether `text` holds no character.
pub fn is_blank(text: &String) -> (blank: bool)
    ensures
        blank == (text@.len() == 0),
{
    text.as_str().is_empty()
}

/// The characters of a text that may be missing.
pub open spec fn text_view(text: Option<String>) -> Option<Seq<char>> {
    match text {
        Some(text) => Some(text@),
        None => None,
    }
}

/// A copy of a text that may be missing.
pub fn copy_of_option(text: &Option<String>) -> (copy: Option<String>)
    ensures
        text_view(copy) == text_view(*text),
{
    match text {
        Some(text) => Some(copy_of(text)),
        None => None,
    }
}

/// `left` followed by `right`.
pub fn joined(left: &str, right: &str) -> (text: String)
    ensures
        text@ == left@ + right@,
{
    let mut text = left.to_owned();
    text.append(right);
    text
}

/// Whether two texts hold the same characters.
pub fn same_text(left: &str, right: &str) -> (same: bool)
    ensures
        same == (left@ == right@),
{
    let a = left.to_owned();
    let b = right.to_owned();
    a == b
}

} // verus!
