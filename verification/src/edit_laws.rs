//! What each key does to a text input, in terms of the text and the cursor.

use vstd::prelude::*;
use vstd::utf8::encode_utf8;

use crate::chars::{char_is_alphanumeric, char_is_whitespace};
use crate::key::{KeyCode, KeyEvent};
use crate::offset::lemma_chars_within_offset;
use crate::text_edit::{
    edited, kind_of, next_word, previous_word, run_end, run_start, trimmed, CharKind,
    TextEditCommand, TextInput, TextInputEdit, TextInputPolicy,
};

verus! {

/// The cursor stands behind the first `n` characters: in front of it are as many
/// bytes as these characters have.
pub open spec fn behind(input: TextInput, n: int) -> bool {
    &&& 0 <= n <= input.value@.len()
    &&& input.cursor == encode_utf8(input.value@.take(n)).len()
}

/// A key under neither Control nor Alt.
pub open spec fn bare(key: KeyEvent, code: KeyCode) -> bool {
    key.code == code && !key.modifiers.control && !key.modifiers.alt
}

/// A letter under Control, in either case.
pub open spec fn ctrl(key: KeyEvent, lower: char, upper: char) -> bool {
    key.modifiers.control && (key.code == KeyCode::Char(lower) || key.code == KeyCode::Char(upper))
}

/// A letter under Alt, in either case.
pub open spec fn alt(key: KeyEvent, lower: char, upper: char) -> bool {
    !key.modifiers.control && key.modifiers.alt && (key.code == KeyCode::Char(lower) || key.code
        == KeyCode::Char(upper))
}

/// The key was handled; something changed exactly if the flag says so.
pub open spec fn handled(edit: Option<TextInputEdit>, changed: bool) -> bool {
    edit == Some(TextInputEdit { changed })
}

/// Backspace removes the character in front of the cursor, which then stands
/// where that character was. At the start of the text it does nothing.
pub proof fn backspace_removes_the_character_in_front(
    before: TextInput,
    n: int,
    key: KeyEvent,
    edit: Option<TextInputEdit>,
    after: TextInput,
)
    requires
        after.took_key(before, key, edit),
        behind(before, n),
        bare(key, KeyCode::Backspace),
    ensures
        n > 0 ==> after.value@ == before.value@.remove(n - 1) && behind(after, n - 1) && handled(
            edit,
            true,
        ),
        n == 0 ==> after.value@ == before.value@ && behind(after, 0) && handled(edit, false),
{
    lemma_chars_within_offset(before.value@, n);
    if n > 0 {
        assert(before.value@.remove(n - 1).len() == before.value@.len() - 1);
    }
}

/// Delete, and Control with `d`, removes the character behind the cursor, which
/// stays. At the end of the text it does nothing.
pub proof fn delete_removes_the_character_behind(
    before: TextInput,
    n: int,
    key: KeyEvent,
    edit: Option<TextInputEdit>,
    after: TextInput,
)
    requires
        after.took_key(before, key, edit),
        behind(before, n),
        bare(key, KeyCode::Delete) || ctrl(key, 'd', 'D'),
    ensures
        behind(after, n),
        n < before.value@.len() ==> after.value@ == before.value@.remove(n) && handled(edit, true),
        n == before.value@.len() ==> after.value@ == before.value@ && handled(edit, false),
{
    lemma_chars_within_offset(before.value@, n);
    if n < before.value@.len() {
        assert(before.value@.remove(n).len() == before.value@.len() - 1);
    }
}

/// A printable character is inserted in front of the cursor, whatever it is; the
/// text around it stays. Shift makes no difference.
pub proof fn typed_characters_are_inserted(
    before: TextInput,
    n: int,
    key: KeyEvent,
    c: char,
    edit: Option<TextInputEdit>,
    after: TextInput,
)
    requires
        after.took_key(before, key, edit),
        behind(before, n),
        bare(key, KeyCode::Char(c)),
    ensures
        (0x20 <= (c as u32) && (c as u32) < 0x7f) || 0xa0 <= (c as u32) ==> {
            &&& after.value@ == before.value@.take(n) + seq![c] + before.value@.skip(n)
            &&& behind(after, n + 1)
            &&& handled(edit, true)
        },
        (c as u32) <= 0x1f || (0x7f <= (c as u32) && (c as u32) <= 0x9f) ==> after == before && edit is None,
{
    lemma_chars_within_offset(before.value@, n);
    assert(before.value@.insert(n, c) =~= before.value@.take(n) + seq![c] + before.value@.skip(n));
    assert(before.value@.insert(n, c).len() == before.value@.len() + 1);
}

/// The arrow keys, and Control with `b` and `f`, move by one character as far as
/// the text goes; Home and End, and Control with `a` and `e`, move to its ends.
/// None of them changes the text.
pub proof fn keys_move_within_the_text(
    before: TextInput,
    n: int,
    key: KeyEvent,
    edit: Option<TextInputEdit>,
    after: TextInput,
)
    requires
        after.took_key(before, key, edit),
        behind(before, n),
    ensures
        bare(key, KeyCode::Left) || ctrl(key, 'b', 'B') ==> {
            &&& after.value@ == before.value@
            &&& n > 0 ==> behind(after, n - 1) && handled(edit, true)
            &&& n == 0 ==> behind(after, 0) && handled(edit, false)
        },
        bare(key, KeyCode::Right) || ctrl(key, 'f', 'F') ==> {
            &&& after.value@ == before.value@
            &&& n < before.value@.len() ==> behind(after, n + 1) && handled(edit, true)
            &&& n == before.value@.len() ==> behind(after, n) && handled(edit, false)
        },
        bare(key, KeyCode::Home) || ctrl(key, 'a', 'A') ==> {
            &&& after.value@ == before.value@
            &&& behind(after, 0)
            &&& handled(edit, n != 0)
        },
        bare(key, KeyCode::End) || ctrl(key, 'e', 'E') ==> {
            &&& after.value@ == before.value@
            &&& behind(after, before.value@.len() as int)
            &&& handled(edit, n != before.value@.len())
        },
{
    lemma_chars_within_offset(before.value@, n);
}

/// Control with `k` removes everything behind the cursor, Control with `u`
/// everything in front of it.
pub proof fn keys_delete_to_the_ends(
    before: TextInput,
    n: int,
    key: KeyEvent,
    edit: Option<TextInputEdit>,
    after: TextInput,
)
    requires
        after.took_key(before, key, edit),
        behind(before, n),
    ensures
        ctrl(key, 'k', 'K') ==> {
            &&& after.value@ == before.value@.take(n)
            &&& behind(after, n)
            &&& handled(edit, n < before.value@.len())
        },
        ctrl(key, 'u', 'U') ==> {
            &&& after.value@ == before.value@.skip(n)
            &&& behind(after, 0)
            &&& handled(edit, n > 0)
        },
{
    lemma_chars_within_offset(before.value@, n);
    let chars = before.value@;
    assert(n < chars.len() ==> chars.take(n).len() != chars.len());
    assert(chars.take(chars.len() as int) =~= chars);
    assert(chars.skip(0) =~= chars);
    assert(n > 0 ==> chars.skip(n).len() != chars.len());
}

/// Every other key under Control, every other key under Alt, and every key that
/// is no character and has no other use leaves the input alone.
pub proof fn other_keys_do_nothing(
    before: TextInput,
    key: KeyEvent,
    edit: Option<TextInputEdit>,
    after: TextInput,
)
    requires
        after.took_key(before, key, edit),
        key.code == KeyCode::Enter || key.code == KeyCode::Tab || key.code == KeyCode::BackTab
            || key.code == KeyCode::Esc || key.code == KeyCode::Up || key.code == KeyCode::Down
            || key.code == KeyCode::PageUp || key.code == KeyCode::PageDown || key.code
            == KeyCode::Insert || key.code == KeyCode::Null || key.code == KeyCode::Other
            || key.code is F || key.modifiers.control && !(ctrl(key, 'a', 'A') || ctrl(
            key,
            'b',
            'B',
        ) || ctrl(key, 'd', 'D') || ctrl(key, 'e', 'E') || ctrl(key, 'f', 'F') || ctrl(
            key,
            'k',
            'K',
        ) || ctrl(key, 'u', 'U') || ctrl(key, 'w', 'W')) || !key.modifiers.control
            && key.modifiers.alt && !(alt(key, 'b', 'B') || alt(key, 'f', 'F') || key.code
            == KeyCode::Backspace),
    ensures
        after == before,
        edit is None,
{
}

// Words.

/// Letters, digits and the underscore make up words.
pub open spec fn in_word(c: char) -> bool {
    !char_is_whitespace(c) && (char_is_alphanumeric(c) || c == '_')
}

/// Two characters belong together: both are of words, or both are neither of
/// words nor white space.
pub open spec fn alike(a: char, b: char) -> bool {
    !char_is_whitespace(a) && !char_is_whitespace(b) && in_word(a) == in_word(b)
}

/// From `n` to the left, `to` is where a word begins: over white space, then over
/// characters that belong together, as far as they go.
pub open spec fn word_to_the_left(chars: Seq<char>, n: int, to: int) -> bool {
    &&& 0 <= to <= n
    &&& exists|m: int|
        {
            &&& to <= m <= n
            &&& forall|i: int| m <= i < n ==> char_is_whitespace(#[trigger] chars[i])
            &&& m == to ==> to == 0
            &&& m > to ==> forall|i: int| to <= i < m ==> alike(#[trigger] chars[i], chars[m - 1])
            &&& m > to && to > 0 ==> !alike(chars[to - 1], #[trigger] chars[m - 1])
        }
}

/// From `n` to the right, `to` is where a word ends.
pub open spec fn word_to_the_right(chars: Seq<char>, n: int, to: int) -> bool {
    &&& n <= to <= chars.len()
    &&& exists|m: int|
        {
            &&& n <= m <= to
            &&& forall|i: int| n <= i < m ==> char_is_whitespace(#[trigger] chars[i])
            &&& m == to ==> to == chars.len()
            &&& m < to ==> forall|i: int| m <= i < to ==> alike(#[trigger] chars[i], chars[m])
            &&& m < to && to < chars.len() ==> !alike(chars[to], #[trigger] chars[m])
        }
}

proof fn lemma_kinds(a: char, b: char)
    ensures
        (kind_of(a) == CharKind::Whitespace) == char_is_whitespace(a),
        !char_is_whitespace(a) ==> (kind_of(a) == CharKind::Word) == in_word(a),
        !char_is_whitespace(a) && !char_is_whitespace(b) ==> (kind_of(a) == kind_of(b)) == alike(
            a,
            b,
        ),
{
}

proof fn lemma_run_left(chars: Seq<char>, n: int, kind: CharKind)
    requires
        0 <= n <= chars.len(),
    ensures
        0 <= run_start(chars, n, kind) <= n,
        forall|i: int|
            run_start(chars, n, kind) <= i < n ==> kind_of(#[trigger] chars[i]) == kind,
        run_start(chars, n, kind) > 0 ==> kind_of(chars[run_start(chars, n, kind) - 1]) != kind,
    decreases n,
{
    if n > 0 && kind_of(chars[n - 1]) == kind {
        lemma_run_left(chars, n - 1, kind);
    }
}

proof fn lemma_run_right(chars: Seq<char>, n: int, kind: CharKind)
    requires
        0 <= n <= chars.len(),
    ensures
        n <= run_end(chars, n, kind) <= chars.len(),
        forall|i: int| n <= i < run_end(chars, n, kind) ==> kind_of(#[trigger] chars[i]) == kind,
        run_end(chars, n, kind) < chars.len() ==> kind_of(chars[run_end(chars, n, kind)]) != kind,
    decreases chars.len() - n,
{
    if n < chars.len() && kind_of(chars[n]) == kind {
        lemma_run_right(chars, n + 1, kind);
    }
}

proof fn lemma_words(chars: Seq<char>, n: int)
    requires
        0 <= n <= chars.len(),
    ensures
        word_to_the_left(chars, n, previous_word(chars, n)),
        word_to_the_right(chars, n, next_word(chars, n)),
{
    let m = run_start(chars, n, CharKind::Whitespace);
    lemma_run_left(chars, n, CharKind::Whitespace);
    assert forall|i: int| m <= i < n implies char_is_whitespace(#[trigger] chars[i]) by {
        assert(kind_of(chars[i]) == CharKind::Whitespace);
    }
    if m > 0 {
        let kind = kind_of(chars[m - 1]);
        let to = run_start(chars, m, kind);
        lemma_run_left(chars, m, kind);
        assert(to < m) by {
            if to == m {
                assert(kind_of(chars[m - 1]) != kind);
            }
        }
        assert forall|i: int| to <= i < m implies alike(#[trigger] chars[i], chars[m - 1]) by {
            lemma_kinds(chars[i], chars[m - 1]);
            assert(kind_of(chars[i]) == kind);
        }
        if to > 0 {
            lemma_kinds(chars[to - 1], chars[m - 1]);
            assert(!alike(chars[to - 1], chars[m - 1]));
        }
        assert(word_to_the_left(chars, n, to));
    } else {
        assert(word_to_the_left(chars, n, 0));
    }
    let k = run_end(chars, n, CharKind::Whitespace);
    lemma_run_right(chars, n, CharKind::Whitespace);
    assert forall|i: int| n <= i < k implies char_is_whitespace(#[trigger] chars[i]) by {
        assert(kind_of(chars[i]) == CharKind::Whitespace);
    }
    if k < chars.len() {
        let kind = kind_of(chars[k]);
        let to = run_end(chars, k, kind);
        lemma_run_right(chars, k, kind);
        assert(k < to) by {
            if to == k {
                assert(kind_of(chars[k]) != kind);
            }
        }
        assert forall|i: int| k <= i < to implies alike(#[trigger] chars[i], chars[k]) by {
            lemma_kinds(chars[i], chars[k]);
            assert(kind_of(chars[i]) == kind);
        }
        if to < chars.len() {
            lemma_kinds(chars[to], chars[k]);
            assert(!alike(chars[to], chars[k]));
        }
        assert(word_to_the_right(chars, n, to));
    } else {
        assert(word_to_the_right(chars, n, chars.len() as int));
    }
}

/// Alt with `b` and `f` moves by a word; Control with `w`, and Alt with
/// Backspace, removes the word in front of the cursor and nothing else.
pub proof fn keys_go_by_words(
    before: TextInput,
    n: int,
    key: KeyEvent,
    edit: Option<TextInputEdit>,
    after: TextInput,
)
    requires
        after.took_key(before, key, edit),
        behind(before, n),
    ensures
        alt(key, 'b', 'B') ==> after.value@ == before.value@ && exists|to: int|
            #[trigger] word_to_the_left(before.value@, n, to) && behind(after, to) && handled(
                edit,
                to != n,
            ),
        alt(key, 'f', 'F') ==> after.value@ == before.value@ && exists|to: int|
            #[trigger] word_to_the_right(before.value@, n, to) && behind(after, to) && handled(
                edit,
                to != n,
            ),
        ctrl(key, 'w', 'W') || !key.modifiers.control && key.modifiers.alt && key.code
            == KeyCode::Backspace ==> exists|to: int| #[trigger]
            word_to_the_left(before.value@, n, to) && after.value@ == before.value@.take(to)
                + before.value@.skip(n) && behind(after, to) && handled(edit, to != n),
{
    lemma_chars_within_offset(before.value@, n);
    lemma_words(before.value@, n);
    let chars = before.value@;
    let to = previous_word(chars, n);
    assert(chars.take(n) + chars.skip(n) =~= chars);
    assert(to != n ==> (chars.take(to) + chars.skip(n)).len() != chars.len());
}

/// A key under a policy does what it does without one, except that a character
/// may be replaced or rejected by the policy, and that nothing is typed into a
/// text that has reached the limit.
pub proof fn policies_restrict_typing_only<F: Fn(char) -> Option<char>>(
    policy: TextInputPolicy<F>,
    before: TextInput,
    n: int,
    command: TextEditCommand,
    accepted: Option<TextEditCommand>,
    changed: bool,
    after: TextInput,
)
    requires
        policy.admits(command, accepted),
        after.settles(before, accepted, policy.max_chars, changed),
        behind(before, n),
    ensures
        command matches TextEditCommand::Insert(c) ==> {
            let full = policy.max_chars matches Some(max) && before.value@.len() >= max;
            &&& policy.sanitize is None && !full ==> after.value@ == before.value@.take(n) + seq![c]
                + before.value@.skip(n) && behind(after, n + 1) && changed
            &&& full ==> after.value@ == before.value@ && behind(after, n) && !changed
            &&& policy.sanitize matches Some(f) ==> (!full && (forall|d: char|
                !f.ensures((c,), Some(d))) ==> after.value@ == before.value@ && behind(after, n)
                && !changed)
            &&& policy.sanitize matches Some(f) ==> (!full && !f.ensures((c,), None)
                ==> exists|d: char| #[trigger]
                f.ensures((c,), Some(d)) && after.value@ == before.value@.take(n) + seq![d]
                    + before.value@.skip(n))
        },
        !(command is Insert) ==> after.value@ == edited(before.value@, n, command, None).0
            && behind(after, edited(before.value@, n, command, None).1),
{
    lemma_chars_within_offset(before.value@, n);
    assert forall|d: char| #[trigger]
        before.value@.insert(n, d) == before.value@.take(n) + seq![d] + before.value@.skip(n) by {
        assert(before.value@.insert(n, d) =~= before.value@.take(n) + seq![d] + before.value@.skip(
            n,
        ));
    }
    if let TextEditCommand::Insert(c) = command {
        if let Some(TextEditCommand::Insert(d)) = accepted {
            assert(before.value@.insert(n, d).len() == before.value@.len() + 1);
        }
    }
}

/// White space is cut off at both ends and nowhere else: what is left is a part
/// of the text, has none at its ends, and nothing else lies around it.
pub proof fn trimming_cuts_white_space(chars: Seq<char>)
    ensures
        ({
            let kept = trimmed(chars);
            &&& kept.len() > 0 ==> !char_is_whitespace(kept[0]) && !char_is_whitespace(
                kept[kept.len() - 1],
            )
            &&& exists|a: int, b: int|
                {
                    &&& 0 <= a <= b <= chars.len()
                    &&& kept == #[trigger] chars.subrange(a, b)
                    &&& forall|i: int|
                        0 <= i < a || b <= i < chars.len() ==> char_is_whitespace(
                            #[trigger] chars[i],
                        )
                }
        }),
{
    let a = run_end(chars, 0, CharKind::Whitespace);
    let b = run_start(chars, chars.len() as int, CharKind::Whitespace);
    lemma_run_right(chars, 0, CharKind::Whitespace);
    lemma_run_left(chars, chars.len() as int, CharKind::Whitespace);
    if a < chars.len() {
        assert(b > a) by {
            if b <= a {
                assert(kind_of(chars[a]) == CharKind::Whitespace);
            }
        }
        assert(trimmed(chars) == chars.subrange(a, b));
        assert(forall|i: int|
            0 <= i < a || b <= i < chars.len() ==> kind_of(#[trigger] chars[i])
                == CharKind::Whitespace);
    } else {
        assert(chars.subrange(0, 0) =~= Seq::<char>::empty());
        assert(trimmed(chars) == chars.subrange(0, 0));
        assert(forall|i: int|
            0 <= i < chars.len() ==> kind_of(#[trigger] chars[i]) == CharKind::Whitespace);
    }
}

} // verus!
