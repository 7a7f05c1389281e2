//! Character classes, lower case and substring search.

use vstd::prelude::*;

verus! {

/// Whether a character has the Unicode `White_Space` property.
pub open spec fn char_is_whitespace(c: char) -> bool {
    let code = c as u32;
    ||| 0x09 <= code <= 0x0d
    ||| code == 0x20
    ||| code == 0x85
    ||| code == 0xa0
    ||| code == 0x1680
    ||| 0x2000 <= code <= 0x200a
    ||| code == 0x2028
    ||| code == 0x2029
    ||| code == 0x202f
    ||| code == 0x205f
    ||| code == 0x3000
}

/// Whether a character has the Unicode `Alphabetic` property or is a number.
pub uninterp spec fn char_is_alphanumeric(c: char) -> bool;

pub fn is_whitespace(c: char) -> (result: bool)
    ensures
        result == char_is_whitespace(c),
{
    let code = c as u32;
    (0x09 <= code && code <= 0x0d) || code == 0x20 || code == 0x85 || code == 0xa0 || code == 0x1680
        || (0x2000 <= code && code <= 0x200a) || code == 0x2028 || code == 0x2029 || code == 0x202f
        || code == 0x205f || code == 0x3000
}

/// `char::is_alphanumeric`. The contract gives the answer a name: which
/// characters are letters and numbers is a table of the Unicode database.
#[verifier::external_body]
pub(crate) fn is_alphanumeric(c: char) -> (result: bool)
    ensures
        result == char_is_alphanumeric(c),
{
    c.is_alphanumeric()
}

/// A text with its letters in lower case.
pub uninterp spec fn text_lowercase(text: Seq<char>) -> Seq<char>;

/// `str::to_lowercase`. The contract gives the result a name: how letters are
/// lowered is a table of the Unicode database.
#[verifier::external_body]
pub(crate) fn lowercase(text: &str) -> (result: String)
    ensures
        result@ == text_lowercase(text@),
{
    text.to_lowercase()
}

/// Whether `needle` occurs in `text` from position `at` on.
pub open spec fn occurs_at(text: Seq<char>, needle: Seq<char>, at: int) -> bool {
    0 <= at && at + needle.len() <= text.len() && text.subrange(at, at + needle.len()) == needle
}

/// Whether `needle` occurs in `text`.
pub open spec fn occurs_in(text: Seq<char>, needle: Seq<char>) -> bool {
    exists|at: int| occurs_at(text, needle, at)
}

fn characters(text: &str) -> (chars: Vec<char>)
    ensures
        chars@ == text@,
{
    let mut chars: Vec<char> = Vec::new();
    for c in iter: text.chars()
        invariant
            iter.seq() == text@,
            chars@ == text@.take(iter.index() as int),
    {
        assert(text@.take(iter.index() + 1) =~= text@.take(iter.index() as int).push(c));
        chars.push(c);
    }
    assert(text@.take(text@.len() as int) =~= text@);
    chars
}

/// Whether `needle` stands in `text` from position `at` on.
fn stands_at(text: &Vec<char>, needle: &Vec<char>, at: usize) -> (result: bool)
    requires
        at + needle.len() <= text.len(),
    ensures
        result == occurs_at(text@, needle@, at as int),
{
    let ghost part = text@.subrange(at as int, at + needle@.len());
    let mut i: usize = 0;
    while i < needle.len()
        invariant
            i <= needle@.len(),
            at + needle.len() <= text.len(),
            part == text@.subrange(at as int, at + needle@.len()),
            forall|j: int| 0 <= j < i ==> part[j] == #[trigger] needle@[j],
        decreases needle@.len() - i,
    {
        assert(part[i as int] == text@[at + i]);
        if text[at + i] != needle[i] {
            return false;
        }
        i += 1;
    }
    assert(part =~= needle@);
    true
}

/// Whether the text holds the other one.
pub(crate) fn text_contains(text: &str, needle: &str) -> (result: bool)
    ensures
        result == occurs_in(text@, needle@),
{
    let all = characters(text);
    let sought = characters(needle);
    if sought.len() > all.len() {
        return false;
    }
    let last = all.len() - sought.len();
    let mut at: usize = 0;
    while at < last
        invariant
            at <= last,
            last == all.len() - sought.len(),
            all@ == text@,
            sought@ == needle@,
            forall|earlier: int| 0 <= earlier < at ==> !occurs_at(text@, needle@, earlier),
        decreases last - at,
    {
        if stands_at(&all, &sought, at) {
            return true;
        }
        at += 1;
    }
    stands_at(&all, &sought, last)
}

/// `String::push`: the character is appended to the text.
pub assume_specification[ String::push ](s: &mut String, c: char)
    ensures
        final(s)@ == old(s)@.push(c),
;

/// A control character: the C0 block, Delete, and the C1 block.
pub open spec fn char_is_control(c: char) -> bool {
    c as u32 <= 0x1f || 0x7f <= c as u32 <= 0x9f
}

pub fn is_control(c: char) -> (result: bool)
    ensures
        result == char_is_control(c),
{
    let code = c as u32;
    code <= 0x1f || (0x7f <= code && code <= 0x9f)
}

/// Whether every character is white space.
pub open spec fn blank(chars: Seq<char>) -> bool {
    forall|i: int| 0 <= i < chars.len() ==> char_is_whitespace(#[trigger] chars[i])
}

/// Whether a text holds nothing but white space.
pub fn is_blank(text: &str) -> (result: bool)
    ensures
        result == blank(text@),
{
    for c in iter: text.chars()
        invariant
            iter.seq() == text@,
            forall|i: int| 0 <= i < iter.index() ==> char_is_whitespace(#[trigger] text@[i]),
    {
        if !is_whitespace(c) {
            return false;
        }
    }
    true
}

} // verus!
