//! Byte offsets of characters in UTF-8 text.
//!
//! Positions in text are counted two ways: by character, which is how edits
//! are described, and by byte, which is how cursors are stored. This module
//! relates the two.

use vstd::prelude::*;
use vstd::string::*;
use vstd::utf8::{encode_scalar, encode_utf8, is_char_boundary, pop_first_scalar};

verus! {

/// Number of bytes that the UTF-8 encoding of a character takes.
pub open spec fn width(c: char) -> nat {
    encode_scalar(c as u32).len()
}

/// Byte offset at which the `n`-th character starts (for `n == chars.len()`,
/// the length of the text in bytes).
pub open spec fn offset_of(chars: Seq<char>, n: int) -> nat {
    encode_utf8(chars.take(n)).len()
}

/// Number of characters that lie entirely within the first `byte` bytes.
pub open spec fn chars_within(chars: Seq<char>, byte: int) -> int
    decreases chars.len(),
{
    if chars.len() == 0 || width(chars[0]) > byte {
        0
    } else {
        1 + chars_within(chars.drop_first(), byte - width(chars[0]))
    }
}

/// A byte offset that does not cut a character in two.
pub open spec fn on_boundary(chars: Seq<char>, byte: int) -> bool {
    exists|n: int| 0 <= n <= chars.len() && #[trigger] offset_of(chars, n) == byte
}

pub proof fn lemma_width(c: char)
    ensures
        1 <= width(c) <= 4,
{
}

pub proof fn lemma_encode_concat(a: Seq<char>, b: Seq<char>)
    ensures
        encode_utf8(a + b) == encode_utf8(a) + encode_utf8(b),
    decreases a.len(),
{
    if a.len() == 0 {
        assert(a + b =~= b);
        assert(encode_utf8(a) + encode_utf8(b) =~= encode_utf8(b));
    } else {
        lemma_encode_concat(a.drop_first(), b);
        assert((a + b).drop_first() =~= a.drop_first() + b);
        assert(encode_utf8(a + b) =~= encode_scalar(a[0] as u32) + (encode_utf8(a.drop_first())
            + encode_utf8(b)));
        assert(encode_utf8(a + b) =~= encode_utf8(a) + encode_utf8(b));
    }
}

/// Two texts with the same bytes are the same text.
pub proof fn lemma_encode_injective(a: Seq<char>, b: Seq<char>)
    requires
        encode_utf8(a) == encode_utf8(b),
    ensures
        a == b,
{
    vstd::utf8::encode_utf8_decode_utf8(a);
    vstd::utf8::encode_utf8_decode_utf8(b);
}

pub proof fn lemma_offset_ends(chars: Seq<char>)
    ensures
        offset_of(chars, 0) == 0,
        offset_of(chars, chars.len() as int) == encode_utf8(chars).len(),
{
    assert(chars.take(0) =~= Seq::<char>::empty());
    assert(chars.take(chars.len() as int) =~= chars);
}

pub proof fn lemma_offset_step(chars: Seq<char>, n: int)
    requires
        0 <= n < chars.len(),
    ensures
        offset_of(chars, n + 1) == offset_of(chars, n) + width(chars[n]),
        1 <= width(chars[n]) <= 4,
{
    let one = seq![chars[n]];
    assert(chars.take(n + 1) =~= chars.take(n) + one);
    lemma_encode_concat(chars.take(n), one);
    assert(one.drop_first() =~= Seq::<char>::empty());
    assert(encode_utf8(one) =~= encode_scalar(chars[n] as u32)) by {
        reveal_with_fuel(encode_utf8, 2);
    }
    lemma_width(chars[n]);
}

pub proof fn lemma_offset_monotonic(chars: Seq<char>, m: int, n: int)
    requires
        0 <= m <= n <= chars.len(),
    ensures
        offset_of(chars, m) + (n - m) <= offset_of(chars, n),
        offset_of(chars, n) <= encode_utf8(chars).len(),
    decreases n - m, chars.len() - n,
{
    if m < n {
        lemma_offset_monotonic(chars, m, n - 1);
        lemma_offset_step(chars, n - 1);
    }
    lemma_offset_ends(chars);
    lemma_offset_tail(chars, n);
}

proof fn lemma_offset_tail(chars: Seq<char>, n: int)
    requires
        0 <= n <= chars.len(),
    ensures
        offset_of(chars, n) + encode_utf8(chars.skip(n)).len() == encode_utf8(chars).len(),
        encode_utf8(chars) == encode_utf8(chars.take(n)) + encode_utf8(chars.skip(n)),
{
    lemma_encode_concat(chars.take(n), chars.skip(n));
    assert(chars.take(n) + chars.skip(n) =~= chars);
}

/// The bytes before and after the start of the `n`-th character encode the
/// characters before it and from it on.
pub proof fn lemma_offset_splits(chars: Seq<char>, n: int)
    requires
        0 <= n <= chars.len(),
    ensures
        offset_of(chars, n) <= encode_utf8(chars).len(),
        encode_utf8(chars).subrange(0, offset_of(chars, n) as int) == encode_utf8(chars.take(n)),
        encode_utf8(chars).subrange(offset_of(chars, n) as int, encode_utf8(chars).len() as int)
            == encode_utf8(chars.skip(n)),
{
    lemma_offset_tail(chars, n);
    assert(encode_utf8(chars).subrange(0, offset_of(chars, n) as int) =~= encode_utf8(
        chars.take(n),
    ));
    assert(encode_utf8(chars).subrange(
        offset_of(chars, n) as int,
        encode_utf8(chars).len() as int,
    ) =~= encode_utf8(chars.skip(n)));
}

/// `chars_within` is the only count whose characters fit while one more would
/// not.
pub proof fn lemma_chars_within_unique(chars: Seq<char>, byte: int, n: int)
    requires
        0 <= n <= chars.len(),
        offset_of(chars, n) <= byte,
        n < chars.len() ==> byte < offset_of(chars, n + 1),
    ensures
        chars_within(chars, byte) == n,
    decreases chars.len(),
{
    if chars.len() == 0 {
    } else {
        let rest = chars.drop_first();
        lemma_offset_ends(chars);
        lemma_offset_step(chars, 0);
        if n == 0 {
        } else {
            lemma_offset_monotonic(chars, 1, n);
            lemma_offset_shift(chars, n);
            if n < chars.len() {
                lemma_offset_shift(chars, n + 1);
            }
            lemma_chars_within_unique(rest, byte - width(chars[0]), n - 1);
        }
    }
}

proof fn lemma_offset_shift(chars: Seq<char>, n: int)
    requires
        1 <= n <= chars.len(),
    ensures
        offset_of(chars, n) == width(chars[0]) + offset_of(chars.drop_first(), n - 1),
{
    let one = seq![chars[0]];
    assert(chars.take(n) =~= one + chars.drop_first().take(n - 1));
    lemma_encode_concat(one, chars.drop_first().take(n - 1));
    assert(one.drop_first() =~= Seq::<char>::empty());
    assert(encode_utf8(one) =~= encode_scalar(chars[0] as u32)) by {
        reveal_with_fuel(encode_utf8, 2);
    }
}

pub proof fn lemma_chars_within(chars: Seq<char>, byte: int)
    requires
        byte >= 0,
    ensures
        0 <= chars_within(chars, byte) <= chars.len(),
        offset_of(chars, chars_within(chars, byte)) <= byte,
        chars_within(chars, byte) < chars.len() ==> byte < offset_of(
            chars,
            chars_within(chars, byte) + 1,
        ),
    decreases chars.len(),
{
    lemma_offset_ends(chars);
    if chars.len() > 0 {
        lemma_offset_step(chars, 0);
        if width(chars[0]) <= byte {
            let rest = chars.drop_first();
            lemma_chars_within(rest, byte - width(chars[0]));
            let k = chars_within(rest, byte - width(chars[0]));
            lemma_offset_shift(chars, k + 1);
            if k + 1 < chars.len() {
                lemma_offset_shift(chars, k + 2);
            }
        }
    }
}

/// At the start of a character, `chars_within` counts the characters before
/// it.
pub proof fn lemma_chars_within_offset(chars: Seq<char>, n: int)
    requires
        0 <= n <= chars.len(),
    ensures
        chars_within(chars, offset_of(chars, n) as int) == n,
{
    if n < chars.len() {
        lemma_offset_step(chars, n);
    }
    lemma_chars_within_unique(chars, offset_of(chars, n) as int, n);
}

/// The character boundaries of a text's bytes are the starts of its
/// characters and its end.
pub proof fn lemma_boundary(chars: Seq<char>, byte: int)
    ensures
        is_char_boundary(encode_utf8(chars), byte) <==> on_boundary(chars, byte),
    decreases chars.len(),
{
    vstd::utf8::encode_utf8_valid_utf8(chars);
    let bytes = encode_utf8(chars);
    lemma_offset_ends(chars);
    if byte == 0 {
        assert(offset_of(chars, 0) == byte);
    } else if byte < 0 || bytes.len() < byte {
        assert forall|n: int| 0 <= n <= chars.len() implies #[trigger] offset_of(chars, n)
            != byte by {
            lemma_offset_monotonic(chars, 0, n);
        }
    } else {
        assert(chars.len() > 0);
        let rest = chars.drop_first();
        vstd::utf8::encode_utf8_first_scalar(chars);
        assert(pop_first_scalar(bytes) =~= encode_utf8(rest));
        lemma_boundary(rest, byte - width(chars[0]));
        if on_boundary(rest, byte - width(chars[0])) {
            let m = choose|m: int|
                0 <= m <= rest.len() && #[trigger] offset_of(rest, m) == byte - width(chars[0]);
            lemma_offset_shift(chars, m + 1);
            assert(offset_of(chars, m + 1) == byte);
        }
        if on_boundary(chars, byte) {
            let n = choose|n: int|
                0 <= n <= chars.len() && #[trigger] offset_of(chars, n) == byte;
            lemma_offset_shift(chars, n);
            assert(offset_of(rest, n - 1) == byte - width(chars[0]));
        }
    }
}

/// Length of a text in bytes.
pub fn byte_len(text: &str) -> (len: usize)
    ensures
        len == encode_utf8(text@).len(),
        offset_of(text@, text@.len() as int) == len,
{
    proof {
        lemma_offset_ends(text@);
    }
    text.as_bytes().len()
}

/// Cuts a text before its `n`-th character, whose byte offset is `at`.
pub(crate) fn cut(text: &str, at: usize, Ghost(n): Ghost<int>) -> (parts: (&str, &str))
    requires
        0 <= n <= text@.len(),
        at == offset_of(text@, n),
    ensures
        parts.0@ == text@.take(n),
        parts.1@ == text@.skip(n),
{
    proof {
        lemma_boundary(text@, at as int);
        lemma_offset_splits(text@, n);
    }
    let parts = text.split_at(at);
    proof {
        lemma_encode_injective(parts.0@, text@.take(n));
        lemma_encode_injective(parts.1@, text@.skip(n));
    }
    parts
}

/// Offset of the character that ends at `byte`.
pub(crate) fn step_back(text: &str, byte: usize, Ghost(n): Ghost<int>) -> (start: usize)
    requires
        0 < n <= text@.len(),
        byte == offset_of(text@, n),
    ensures
        start == offset_of(text@, n - 1),
{
    proof {
        lemma_offset_step(text@, n - 1);
    }
    let mut start: usize = byte - 1;
    proof {
        lemma_boundary(text@, start as int);
    }
    while !text.is_char_boundary(start)
        invariant
            0 < n <= text@.len(),
            offset_of(text@, n - 1) <= start < offset_of(text@, n),
            text.is_char_boundary(start) == on_boundary(text@, start as int),
        decreases start,
    {
        proof {
            assert(offset_of(text@, n - 1) != start);
            lemma_boundary(text@, start - 1);
        }
        start = start - 1;
    }
    proof {
        let m = choose|m: int| 0 <= m <= text@.len() && #[trigger] offset_of(text@, m) == start;
        if m < n - 1 {
            lemma_offset_monotonic(text@, m, n - 1);
        } else if m > n - 1 {
            lemma_offset_monotonic(text@, n, m);
        }
    }
    start
}

/// Offset just behind the character that starts at `byte`.
pub(crate) fn step_forward(text: &str, byte: usize, Ghost(n): Ghost<int>) -> (end: usize)
    requires
        0 <= n < text@.len(),
        byte == offset_of(text@, n),
    ensures
        end == offset_of(text@, n + 1),
{
    let len = byte_len(text);
    proof {
        lemma_offset_step(text@, n);
        lemma_offset_monotonic(text@, n + 1, text@.len() as int);
    }
    let mut end: usize = byte + 1;
    proof {
        lemma_boundary(text@, end as int);
    }
    while !text.is_char_boundary(end)
        invariant
            0 <= n < text@.len(),
            offset_of(text@, n) < end <= offset_of(text@, n + 1) <= len,
            text.is_char_boundary(end) == on_boundary(text@, end as int),
        decreases len - end,
    {
        proof {
            assert(offset_of(text@, n + 1) != end);
            lemma_boundary(text@, end + 1);
        }
        end = end + 1;
    }
    proof {
        let m = choose|m: int| 0 <= m <= text@.len() && #[trigger] offset_of(text@, m) == end;
        if m < n + 1 {
            lemma_offset_monotonic(text@, m, n);
        } else if m > n + 1 {
            lemma_offset_monotonic(text@, n + 1, m);
        }
    }
    end
}

/// The character that starts at `byte`.
pub(crate) fn char_at(text: &str, byte: usize, Ghost(n): Ghost<int>) -> (c: char)
    requires
        0 <= n < text@.len(),
        byte == offset_of(text@, n),
    ensures
        c == text@[n],
{
    let (_, rest) = cut(text, byte, Ghost(n));
    rest.get_char(0)
}

} // verus!
