//! Single-line text editing with readline-style keys.
//!
//! A cursor is stored as a UTF-8 byte offset, so that a renderer can take a
//! bounded window around it without scanning the text from its start. The
//! contracts speak of characters: `position` is the number of characters in
//! front of the cursor.

use vstd::prelude::*;
use vstd::string::*;

use crate::chars::{
    blank, char_is_alphanumeric, char_is_control, char_is_whitespace, is_alphanumeric, is_blank,
    is_control, is_whitespace, occurs_in, text_contains,
};
use crate::key::{KeyCode, KeyEvent};
use crate::offset::{
    byte_len, char_at, chars_within, cut, lemma_boundary, lemma_chars_within,
    lemma_chars_within_offset, lemma_offset_ends, lemma_offset_monotonic, lemma_offset_step,
    offset_of, on_boundary, step_back, step_forward,
};

verus! {

/// Text that is only displayed is never scanned beyond this many bytes. A
/// longer value counts as present and as matching nothing until it is edited
/// or saved.
pub const PASSIVE_TEXT_SCAN_MAX_BYTES: usize = 8 * 1024;

/// What a key does to a text input.
#[derive(Debug, Clone, Copy, PartialEq, Eq, Structural)]
pub enum TextEditCommand {
    MoveLeft,
    MoveRight,
    MoveLineStart,
    MoveLineEnd,
    MoveWordLeft,
    MoveWordRight,
    DeleteBackward,
    DeleteForward,
    DeleteToLineStart,
    DeleteToLineEnd,
    DeleteWordBackward,
    Insert(char),
}

/// The command bound to a key. Control takes precedence over Alt; under
/// either, letters count in both cases and every unbound key means nothing.
pub open spec fn bound_command(key: KeyEvent) -> Option<TextEditCommand> {
    if key.modifiers.control {
        match key.code {
            KeyCode::Char(c) => if c == 'a' || c == 'A' {
                Some(TextEditCommand::MoveLineStart)
            } else if c == 'b' || c == 'B' {
                Some(TextEditCommand::MoveLeft)
            } else if c == 'd' || c == 'D' {
                Some(TextEditCommand::DeleteForward)
            } else if c == 'e' || c == 'E' {
                Some(TextEditCommand::MoveLineEnd)
            } else if c == 'f' || c == 'F' {
                Some(TextEditCommand::MoveRight)
            } else if c == 'k' || c == 'K' {
                Some(TextEditCommand::DeleteToLineEnd)
            } else if c == 'u' || c == 'U' {
                Some(TextEditCommand::DeleteToLineStart)
            } else if c == 'w' || c == 'W' {
                Some(TextEditCommand::DeleteWordBackward)
            } else {
                None
            },
            _ => None,
        }
    } else if key.modifiers.alt {
        match key.code {
            KeyCode::Backspace => Some(TextEditCommand::DeleteWordBackward),
            KeyCode::Char(c) => if c == 'b' || c == 'B' {
                Some(TextEditCommand::MoveWordLeft)
            } else if c == 'f' || c == 'F' {
                Some(TextEditCommand::MoveWordRight)
            } else {
                None
            },
            _ => None,
        }
    } else {
        match key.code {
            KeyCode::Left => Some(TextEditCommand::MoveLeft),
            KeyCode::Right => Some(TextEditCommand::MoveRight),
            KeyCode::Home => Some(TextEditCommand::MoveLineStart),
            KeyCode::End => Some(TextEditCommand::MoveLineEnd),
            KeyCode::Backspace => Some(TextEditCommand::DeleteBackward),
            KeyCode::Delete => Some(TextEditCommand::DeleteForward),
            KeyCode::Char(c) => if char_is_control(c) {
                None
            } else {
                Some(TextEditCommand::Insert(c))
            },
            _ => None,
        }
    }
}

impl TextEditCommand {
    pub fn from_key(key: KeyEvent) -> (command: Option<TextEditCommand>)
        ensures
            command == bound_command(key),
    {
        if key.modifiers.control {
            return match key.code {
                KeyCode::Char('a') | KeyCode::Char('A') => Some(Self::MoveLineStart),
                KeyCode::Char('b') | KeyCode::Char('B') => Some(Self::MoveLeft),
                KeyCode::Char('d') | KeyCode::Char('D') => Some(Self::DeleteForward),
                KeyCode::Char('e') | KeyCode::Char('E') => Some(Self::MoveLineEnd),
                KeyCode::Char('f') | KeyCode::Char('F') => Some(Self::MoveRight),
                KeyCode::Char('k') | KeyCode::Char('K') => Some(Self::DeleteToLineEnd),
                KeyCode::Char('u') | KeyCode::Char('U') => Some(Self::DeleteToLineStart),
                KeyCode::Char('w') | KeyCode::Char('W') => Some(Self::DeleteWordBackward),
                _ => None,
            };
        }
        if key.modifiers.alt {
            return match key.code {
                KeyCode::Backspace => Some(Self::DeleteWordBackward),
                KeyCode::Char('b') | KeyCode::Char('B') => Some(Self::MoveWordLeft),
                KeyCode::Char('f') | KeyCode::Char('F') => Some(Self::MoveWordRight),
                _ => None,
            };
        }
        match key.code {
            KeyCode::Left => Some(Self::MoveLeft),
            KeyCode::Right => Some(Self::MoveRight),
            KeyCode::Home => Some(Self::MoveLineStart),
            KeyCode::End => Some(Self::MoveLineEnd),
            KeyCode::Backspace => Some(Self::DeleteBackward),
            KeyCode::Delete => Some(Self::DeleteForward),
            KeyCode::Char(c) => if is_control(c) {
                None
            } else {
                Some(Self::Insert(c))
            },
            _ => None,
        }
    }
}

/// The classes of characters between which word movement stops.
#[derive(Debug, Clone, Copy, PartialEq, Eq, Structural)]
pub enum CharKind {
    Whitespace,
    Word,
    Other,
}

pub open spec fn kind_of(c: char) -> CharKind {
    if char_is_whitespace(c) {
        CharKind::Whitespace
    } else if char_is_alphanumeric(c) || c == '_' {
        CharKind::Word
    } else {
        CharKind::Other
    }
}

pub fn char_kind(c: char) -> (kind: CharKind)
    ensures
        kind == kind_of(c),
{
    if is_whitespace(c) {
        CharKind::Whitespace
    } else if is_alphanumeric(c) || c == '_' {
        CharKind::Word
    } else {
        CharKind::Other
    }
}

/// Start of the run of characters of one kind that ends in front of `n`.
pub open spec fn run_start(chars: Seq<char>, n: int, kind: CharKind) -> int
    decreases n,
{
    if n <= 0 || kind_of(chars[n - 1]) != kind {
        n
    } else {
        run_start(chars, n - 1, kind)
    }
}

/// End of the run of characters of one kind that starts at `n`.
pub open spec fn run_end(chars: Seq<char>, n: int, kind: CharKind) -> int
    decreases chars.len() - n,
{
    if n >= chars.len() || kind_of(chars[n]) != kind {
        n
    } else {
        run_end(chars, n + 1, kind)
    }
}

/// Where a word movement to the left from `n` stops: white space is skipped,
/// then one run of characters of the same kind.
pub open spec fn previous_word(chars: Seq<char>, n: int) -> int {
    let word_end = run_start(chars, n, CharKind::Whitespace);
    if word_end == 0 {
        0
    } else {
        run_start(chars, word_end, kind_of(chars[word_end - 1]))
    }
}

/// Where a word movement to the right from `n` stops: white space is skipped,
/// then one run of characters of the same kind.
pub open spec fn next_word(chars: Seq<char>, n: int) -> int {
    let word_start = run_end(chars, n, CharKind::Whitespace);
    if word_start >= chars.len() {
        chars.len() as int
    } else {
        run_end(chars, word_start, kind_of(chars[word_start]))
    }
}

proof fn lemma_run_start(chars: Seq<char>, n: int, kind: CharKind)
    requires
        0 <= n <= chars.len(),
    ensures
        0 <= run_start(chars, n, kind) <= n,
        n > 0 && kind_of(chars[n - 1]) == kind ==> run_start(chars, n, kind) < n,
    decreases n,
{
    if n > 0 && kind_of(chars[n - 1]) == kind {
        lemma_run_start(chars, n - 1, kind);
    }
}

proof fn lemma_run_end(chars: Seq<char>, n: int, kind: CharKind)
    requires
        0 <= n <= chars.len(),
    ensures
        n <= run_end(chars, n, kind) <= chars.len(),
    decreases chars.len() - n,
{
    if n < chars.len() && kind_of(chars[n]) == kind {
        lemma_run_end(chars, n + 1, kind);
    }
}

proof fn lemma_word_bounds(chars: Seq<char>, n: int)
    requires
        0 <= n <= chars.len(),
    ensures
        0 <= previous_word(chars, n) <= n,
        n <= next_word(chars, n) <= chars.len(),
{
    lemma_run_start(chars, n, CharKind::Whitespace);
    let word_end = run_start(chars, n, CharKind::Whitespace);
    if word_end > 0 {
        lemma_run_start(chars, word_end, kind_of(chars[word_end - 1]));
    }
    lemma_run_end(chars, n, CharKind::Whitespace);
    let word_start = run_end(chars, n, CharKind::Whitespace);
    if word_start < chars.len() {
        lemma_run_end(chars, word_start, kind_of(chars[word_start]));
    }
}

/// Byte offset at which a word movement to the left stops.
pub fn previous_word_boundary(text: &str, cursor: usize) -> (byte: usize)
    ensures
        byte == offset_of(text@, previous_word(text@, chars_within(text@, cursor as int))),
{
    let mut byte = TextInput::clamp_byte_boundary(text, cursor);
    let ghost mut n = chars_within(text@, cursor as int);
    proof {
        lemma_chars_within(text@, cursor as int);
        lemma_offset_ends(text@);
    }
    let ghost origin = n;
    while byte > 0
        invariant
            0 <= n <= text@.len(),
            byte == offset_of(text@, n),
            offset_of(text@, 0) == 0,
            run_start(text@, origin, CharKind::Whitespace) == run_start(
                text@,
                n,
                CharKind::Whitespace,
            ),
        ensures
            0 <= n <= text@.len(),
            byte == offset_of(text@, n),
            n == run_start(text@, origin, CharKind::Whitespace),
        decreases byte,
    {
        proof {
            assert(n > 0);
            lemma_offset_step(text@, n - 1);
        }
        let start = step_back(text, byte, Ghost(n));
        if char_kind(char_at(text, start, Ghost(n - 1))) != CharKind::Whitespace {
            break;
        }
        byte = start;
        proof {
            n = n - 1;
        }
    }
    if byte == 0 {
        proof {
            lemma_offset_monotonic(text@, 0, n);
        }
        return 0;
    }
    proof {
        assert(n > 0);
        lemma_offset_step(text@, n - 1);
    }
    let last = step_back(text, byte, Ghost(n));
    let target = char_kind(char_at(text, last, Ghost(n - 1)));
    let ghost word_end = n;
    while byte > 0
        invariant
            0 <= n <= text@.len(),
            byte == offset_of(text@, n),
            offset_of(text@, 0) == 0,
            run_start(text@, word_end, target) == run_start(text@, n, target),
        ensures
            0 <= n <= text@.len(),
            byte == offset_of(text@, n),
            n == run_start(text@, word_end, target),
        decreases byte,
    {
        proof {
            assert(n > 0);
            lemma_offset_step(text@, n - 1);
        }
        let start = step_back(text, byte, Ghost(n));
        if char_kind(char_at(text, start, Ghost(n - 1))) != target {
            break;
        }
        byte = start;
        proof {
            n = n - 1;
        }
    }
    byte
}

/// Byte offset at which a word movement to the right stops.
pub fn next_word_boundary(text: &str, cursor: usize) -> (byte: usize)
    ensures
        byte == offset_of(text@, next_word(text@, chars_within(text@, cursor as int))),
{
    let len = byte_len(text);
    let mut byte = TextInput::clamp_byte_boundary(text, cursor);
    let ghost mut n = chars_within(text@, cursor as int);
    proof {
        lemma_chars_within(text@, cursor as int);
        lemma_offset_monotonic(text@, n, text@.len() as int);
    }
    let ghost origin = n;
    while byte < len
        invariant
            0 <= n <= text@.len(),
            byte == offset_of(text@, n),
            len == offset_of(text@, text@.len() as int),
            byte <= len,
            byte == len ==> n == text@.len(),
            run_end(text@, origin, CharKind::Whitespace) == run_end(
                text@,
                n,
                CharKind::Whitespace,
            ),
        ensures
            0 <= n <= text@.len(),
            byte == offset_of(text@, n),
            byte <= len,
            n == run_end(text@, origin, CharKind::Whitespace),
        decreases len - byte,
    {
        proof {
            assert(n < text@.len());
            lemma_offset_step(text@, n);
            lemma_offset_monotonic(text@, n + 1, text@.len() as int);
        }
        if char_kind(char_at(text, byte, Ghost(n))) != CharKind::Whitespace {
            break;
        }
        byte = step_forward(text, byte, Ghost(n));
        proof {
            n = n + 1;
        }
    }
    if byte >= len {
        proof {
            lemma_offset_monotonic(text@, n, text@.len() as int);
        }
        return len;
    }
    let target = char_kind(char_at(text, byte, Ghost(n)));
    let ghost word_start = n;
    while byte < len
        invariant
            0 <= n <= text@.len(),
            byte == offset_of(text@, n),
            len == offset_of(text@, text@.len() as int),
            byte <= len,
            byte == len ==> n == text@.len(),
            run_end(text@, word_start, target) == run_end(text@, n, target),
        ensures
            0 <= n <= text@.len(),
            byte == offset_of(text@, n),
            n == run_end(text@, word_start, target),
        decreases len - byte,
    {
        proof {
            assert(n < text@.len());
            lemma_offset_step(text@, n);
            lemma_offset_monotonic(text@, n + 1, text@.len() as int);
        }
        if char_kind(char_at(text, byte, Ghost(n))) != target {
            break;
        }
        byte = step_forward(text, byte, Ghost(n));
        proof {
            n = n + 1;
        }
    }
    byte
}

/// A text under edit and the cursor in it.
#[derive(Debug, Clone)]
pub struct TextInput {
    pub value: String,
    /// UTF-8 byte offset. Code outside may leave it anywhere; edits first
    /// bring it back to the start of the character it lies in.
    pub cursor: usize,
}

impl Default for TextInput {
    fn default() -> (input: TextInput)
        ensures
            input.value@ == Seq::<char>::empty(),
            input.cursor == 0,
    {
        TextInput { value: String::new(), cursor: 0 }
    }
}

impl TextInput {
    /// Number of characters in front of the cursor.
    pub open spec fn position(self) -> int {
        chars_within(self.value@, self.cursor as int)
    }

    /// The cursor lies in front of the `n`-th character.
    pub open spec fn at(self, n: int) -> bool {
        0 <= n <= self.value@.len() && self.cursor == offset_of(self.value@, n)
    }

    /// The largest character boundary that is not beyond `cursor`.
    pub fn clamp_byte_boundary(text: &str, cursor: usize) -> (byte: usize)
        ensures
            byte == offset_of(text@, chars_within(text@, cursor as int)),
    {
        let len = byte_len(text);
        let ghost n = chars_within(text@, cursor as int);
        proof {
            lemma_chars_within(text@, cursor as int);
            lemma_offset_monotonic(text@, n, text@.len() as int);
        }
        let mut byte: usize = if cursor < len {
            cursor
        } else {
            len
        };
        proof {
            lemma_boundary(text@, byte as int);
            lemma_boundary(text@, 0);
            lemma_offset_ends(text@);
        }
        while byte > 0 && !text.is_char_boundary(byte)
            invariant
                0 <= n <= text@.len(),
                offset_of(text@, n) <= byte <= cursor,
                n < text@.len() ==> cursor < offset_of(text@, n + 1),
                text.is_char_boundary(byte) == on_boundary(text@, byte as int),
                offset_of(text@, 0) == 0,
            ensures
                offset_of(text@, n) <= byte <= cursor,
                on_boundary(text@, byte as int),
            decreases byte,
        {
            proof {
                assert(offset_of(text@, n) != byte);
                lemma_boundary(text@, byte - 1);
            }
            byte = byte - 1;
        }
        proof {
            let m = choose|m: int| 0 <= m <= text@.len() && #[trigger] offset_of(text@, m) == byte;
            if m < n {
                lemma_offset_monotonic(text@, m, n);
            } else if m > n {
                lemma_offset_monotonic(text@, n + 1, m);
            }
        }
        byte
    }

    /// Byte offset of the character in front of the cursor (0 at the start).
    pub fn previous_char_boundary(text: &str, cursor: usize) -> (byte: usize)
        ensures
            byte == offset_of(
                text@,
                if chars_within(text@, cursor as int) == 0 {
                    0
                } else {
                    chars_within(text@, cursor as int) - 1
                },
            ),
    {
        let byte = Self::clamp_byte_boundary(text, cursor);
        let ghost n = chars_within(text@, cursor as int);
        proof {
            lemma_chars_within(text@, cursor as int);
            lemma_offset_monotonic(text@, 0, n);
            lemma_offset_ends(text@);
        }
        if byte == 0 {
            0
        } else {
            step_back(text, byte, Ghost(n))
        }
    }

    /// Byte offset behind the character at the cursor (the end of the text
    /// where there is none).
    pub fn next_char_boundary(text: &str, cursor: usize) -> (byte: usize)
        ensures
            byte == offset_of(
                text@,
                if chars_within(text@, cursor as int) == text@.len() {
                    text@.len() as int
                } else {
                    chars_within(text@, cursor as int) + 1
                },
            ),
    {
        let len = byte_len(text);
        let byte = Self::clamp_byte_boundary(text, cursor);
        let ghost n = chars_within(text@, cursor as int);
        proof {
            lemma_chars_within(text@, cursor as int);
            lemma_offset_monotonic(text@, n, text@.len() as int);
        }
        if byte >= len {
            len
        } else {
            step_forward(text, byte, Ghost(n))
        }
    }

    /// An input that holds `value`, with the cursor behind it.
    pub fn new(value: String) -> (input: TextInput)
        ensures
            input.value == value,
            input.at(value@.len() as int),
    {
        let cursor = byte_len(value.as_str());
        TextInput { value, cursor }
    }

    /// Replaces the text and puts the cursor behind it.
    pub fn set(&mut self, value: String)
        ensures
            final(self).value == value,
            final(self).at(value@.len() as int),
    {
        self.cursor = byte_len(value.as_str());
        self.value = value;
    }

    /// Whether the text holds nothing but white space.
    pub fn is_blank(&self) -> (result: bool)
        ensures
            result == blank(self.value@),
    {
        is_blank(self.value.as_str())
    }

    /// `is_blank` for display: a text beyond the scan budget is not blank.
    pub fn is_blank_for_passive_display(&self) -> (result: bool)
        ensures
            result == (scannable(self.value@) && blank(self.value@)),
    {
        passive_text_is_blank(self.value.as_str())
    }

    /// Whether the text has at least `max_chars` characters.
    fn reached_char_limit(&self, max_chars: usize) -> (result: bool)
        ensures
            result == (self.value@.len() >= max_chars),
    {
        if max_chars == 0 {
            return true;
        }
        let mut count: usize = 0;
        for c in iter: self.value.as_str().chars()
            invariant
                iter.seq() == self.value@,
                count == iter.index(),
                count < max_chars,
        {
            count = count + 1;
            if count >= max_chars {
                return true;
            }
        }
        false
    }

    fn clamp_cursor(&mut self)
        ensures
            final(self).value == old(self).value,
            final(self).at(old(self).position()),
    {
        proof {
            lemma_chars_within(self.value@, self.cursor as int);
        }
        self.cursor = Self::clamp_byte_boundary(self.value.as_str(), self.cursor);
    }

    /// Removes the characters from `a` to `b`, whose byte offsets are `start`
    /// and `end`, and puts the cursor where they were.
    fn remove_chars(&mut self, start: usize, end: usize, Ghost(a): Ghost<int>, Ghost(b): Ghost<int>)
        requires
            0 <= a <= b <= old(self).value@.len(),
            start == offset_of(old(self).value@, a),
            end == offset_of(old(self).value@, b),
        ensures
            final(self).value@ == old(self).value@.take(a) + old(self).value@.skip(b),
            final(self).at(a),
    {
        let text = self.value.as_str();
        let (front, _) = cut(text, start, Ghost(a));
        let (_, back) = cut(text, end, Ghost(b));
        let mut value = front.to_owned();
        value.append(back);
        proof {
            assert(value@.take(a) =~= self.value@.take(a));
        }
        self.value = value;
        self.cursor = start;
    }

    /// Moves the cursor one character to the left. The result tells whether
    /// the cursor's byte offset changed.
    pub fn move_left(&mut self) -> (changed: bool)
        ensures
            final(self).value == old(self).value,
            final(self).at(
                if old(self).position() == 0 {
                    0
                } else {
                    old(self).position() - 1
                },
            ),
            changed == (final(self).cursor != old(self).cursor),
    {
        let before = self.cursor;
        proof {
            lemma_chars_within(self.value@, self.cursor as int);
        }
        self.cursor = Self::previous_char_boundary(self.value.as_str(), self.cursor);
        self.cursor != before
    }

    /// Moves the cursor one character to the right. The result tells whether
    /// the cursor's byte offset changed.
    pub fn move_right(&mut self) -> (changed: bool)
        ensures
            final(self).value == old(self).value,
            final(self).at(
                if old(self).position() == old(self).value@.len() {
                    old(self).value@.len() as int
                } else {
                    old(self).position() + 1
                },
            ),
            changed == (final(self).cursor != old(self).cursor),
    {
        let before = self.cursor;
        proof {
            lemma_chars_within(self.value@, self.cursor as int);
        }
        self.cursor = Self::next_char_boundary(self.value.as_str(), self.cursor);
        self.cursor != before
    }

    /// Moves the cursor to the start of the text.
    pub fn move_home(&mut self) -> (changed: bool)
        ensures
            final(self).value == old(self).value,
            final(self).at(0),
            changed == (final(self).cursor != old(self).cursor),
    {
        proof {
            lemma_offset_ends(self.value@);
        }
        let before = self.cursor;
        self.cursor = 0;
        self.cursor != before
    }

    /// Moves the cursor behind the text.
    pub fn move_end(&mut self) -> (changed: bool)
        ensures
            final(self).value == old(self).value,
            final(self).at(old(self).value@.len() as int),
            changed == (final(self).cursor != old(self).cursor),
    {
        let before = self.cursor;
        self.cursor = byte_len(self.value.as_str());
        self.cursor != before
    }

    /// Moves the cursor to the start of the word in front of it.
    pub fn move_word_left(&mut self) -> (changed: bool)
        ensures
            final(self).value == old(self).value,
            final(self).at(previous_word(old(self).value@, old(self).position())),
            changed == (final(self).cursor != old(self).cursor),
    {
        let before = self.cursor;
        proof {
            lemma_chars_within(self.value@, self.cursor as int);
            lemma_word_bounds(self.value@, self.position());
        }
        self.cursor = previous_word_boundary(self.value.as_str(), self.cursor);
        self.cursor != before
    }

    /// Moves the cursor to the end of the word behind it.
    pub fn move_word_right(&mut self) -> (changed: bool)
        ensures
            final(self).value == old(self).value,
            final(self).at(next_word(old(self).value@, old(self).position())),
            changed == (final(self).cursor != old(self).cursor),
    {
        let before = self.cursor;
        proof {
            lemma_chars_within(self.value@, self.cursor as int);
            lemma_word_bounds(self.value@, self.position());
        }
        self.cursor = next_word_boundary(self.value.as_str(), self.cursor);
        self.cursor != before
    }

    /// Inserts a character in front of the cursor's character and moves the
    /// cursor behind it.
    pub fn insert_char(&mut self, c: char) -> (changed: bool)
        ensures
            final(self).value@ == old(self).value@.insert(old(self).position(), c),
            final(self).at(old(self).position() + 1),
            changed,
    {
        self.clamp_cursor();
        let ghost n = old(self).position();
        let (front, back) = cut(self.value.as_str(), self.cursor, Ghost(n));
        let mut value = front.to_owned();
        value.push(c);
        value.append(back);
        proof {
            assert(value@ =~= self.value@.insert(n, c));
            assert(value@.take(n) =~= self.value@.take(n));
        }
        let cursor = step_forward(value.as_str(), self.cursor, Ghost(n));
        self.value = value;
        self.cursor = cursor;
        true
    }

    /// Removes the character in front of the cursor. Nothing happens with the
    /// cursor at offset 0 or an empty text; inside the first character the
    /// cursor only moves to the start.
    pub fn backspace(&mut self) -> (changed: bool)
        ensures
            changed == (old(self).cursor != 0 && old(self).value@.len() != 0),
            !changed ==> *final(self) == *old(self),
            changed && old(self).position() == 0 ==> final(self).value@ == old(self).value@
                && final(self).at(0),
            changed && old(self).position() > 0 ==> final(self).value@ == old(self).value@.remove(
                old(self).position() - 1,
            ) && final(self).at(old(self).position() - 1),
    {
        if self.cursor == 0 || self.value.as_str().is_empty() {
            return false;
        }
        self.clamp_cursor();
        let ghost n = old(self).position();
        proof {
            lemma_chars_within_offset(self.value@, n);
        }
        let end = self.cursor;
        let start = Self::previous_char_boundary(self.value.as_str(), end);
        let ghost m = if n == 0 {
            0
        } else {
            n - 1
        };
        let ghost before = self.value@;
        self.remove_chars(start, end, Ghost(m), Ghost(n));
        proof {
            if n == 0 {
                assert(self.value@ =~= before);
            } else {
                assert(self.value@ =~= before.remove(n - 1));
            }
        }
        true
    }

    /// Removes the character at the cursor.
    pub fn delete(&mut self) -> (changed: bool)
        ensures
            changed == (old(self).position() < old(self).value@.len()),
            final(self).at(old(self).position()),
            !changed ==> final(self).value == old(self).value,
            changed ==> final(self).value@ == old(self).value@.remove(old(self).position()),
    {
        self.clamp_cursor();
        let ghost n = old(self).position();
        let len = byte_len(self.value.as_str());
        proof {
            lemma_chars_within_offset(self.value@, n);
            lemma_offset_monotonic(self.value@, n, self.value@.len() as int);
        }
        if self.cursor >= len {
            return false;
        }
        let start = self.cursor;
        let end = Self::next_char_boundary(self.value.as_str(), start);
        let ghost before = self.value@;
        self.remove_chars(start, end, Ghost(n), Ghost(n + 1));
        proof {
            assert(self.value@ =~= before.remove(n));
        }
        true
    }

    /// Removes everything in front of the cursor. Nothing happens with the
    /// cursor at offset 0.
    pub fn delete_to_line_start(&mut self) -> (changed: bool)
        ensures
            changed == (old(self).cursor != 0),
            !changed ==> *final(self) == *old(self),
            changed ==> final(self).value@ == old(self).value@.skip(old(self).position())
                && final(self).at(0),
    {
        if self.cursor == 0 {
            return false;
        }
        self.clamp_cursor();
        let end = self.cursor;
        let ghost n = old(self).position();
        let ghost before = self.value@;
        proof {
            lemma_offset_ends(before);
        }
        self.remove_chars(0, end, Ghost(0), Ghost(n));
        proof {
            assert(self.value@ =~= before.skip(n));
        }
        true
    }

    /// Removes everything from the cursor on.
    pub fn delete_to_line_end(&mut self) -> (changed: bool)
        ensures
            changed == (old(self).position() < old(self).value@.len()),
            final(self).at(old(self).position()),
            !changed ==> final(self).value == old(self).value,
            changed ==> final(self).value@ == old(self).value@.take(old(self).position()),
    {
        self.clamp_cursor();
        let ghost n = old(self).position();
        let len = byte_len(self.value.as_str());
        proof {
            lemma_offset_monotonic(self.value@, n, self.value@.len() as int);
        }
        if self.cursor >= len {
            return false;
        }
        let start = self.cursor;
        let ghost before = self.value@;
        self.remove_chars(start, len, Ghost(n), Ghost(before.len() as int));
        proof {
            assert(self.value@ =~= before.take(n));
        }
        true
    }

    /// Removes the word in front of the cursor, and the white space between.
    pub fn delete_word_backward(&mut self) -> (changed: bool)
        ensures
            changed == (previous_word(old(self).value@, old(self).position()) != old(self).position()),
            final(self).at(previous_word(old(self).value@, old(self).position())),
            !changed ==> final(self).value == old(self).value,
            changed ==> final(self).value@ == old(self).value@.take(
                previous_word(old(self).value@, old(self).position()),
            ) + old(self).value@.skip(old(self).position()),
    {
        self.clamp_cursor();
        let ghost n = old(self).position();
        proof {
            lemma_chars_within(old(self).value@, old(self).cursor as int);
            lemma_chars_within_offset(self.value@, n);
            lemma_word_bounds(self.value@, n);
        }
        let ghost m = previous_word(self.value@, n);
        let end = self.cursor;
        let start = previous_word_boundary(self.value.as_str(), end);
        proof {
            lemma_offset_monotonic(self.value@, m, n);
        }
        if start == end {
            return false;
        }
        self.remove_chars(start, end, Ghost(m), Ghost(n));
        true
    }
}

/// Whether a text is short enough to be scanned for display.
pub open spec fn scannable(chars: Seq<char>) -> bool {
    vstd::utf8::encode_utf8(chars).len() <= PASSIVE_TEXT_SCAN_MAX_BYTES
}

/// Whether a text within the scan budget holds nothing but white space.
pub fn passive_text_is_blank(text: &str) -> (result: bool)
    ensures
        result == (scannable(text@) && blank(text@)),
{
    byte_len(text) <= PASSIVE_TEXT_SCAN_MAX_BYTES && is_blank(text)
}

/// Whether a text within the scan budget holds `needle`.
pub fn passive_text_contains(text: &str, needle: &str) -> (result: bool)
    ensures
        result == (scannable(text@) && occurs_in(text@, needle@)),
{
    byte_len(text) <= PASSIVE_TEXT_SCAN_MAX_BYTES && text_contains(text, needle)
}

/// What is left of a text without the white space at its two ends.
pub open spec fn trimmed(chars: Seq<char>) -> Seq<char> {
    let start = run_end(chars, 0, CharKind::Whitespace);
    if start >= chars.len() {
        Seq::empty()
    } else {
        chars.subrange(start, run_start(chars, chars.len() as int, CharKind::Whitespace))
    }
}

/// The text without the white space at its two ends.
pub fn trim(text: &str) -> (result: &str)
    ensures
        result@ == trimmed(text@),
{
    let len = byte_len(text);
    let mut start: usize = 0;
    let ghost mut a: int = 0;
    proof {
        lemma_offset_ends(text@);
        lemma_offset_monotonic(text@, 0, text@.len() as int);
    }
    while start < len
        invariant
            0 <= a <= text@.len(),
            start == offset_of(text@, a),
            len == offset_of(text@, text@.len() as int),
            start <= len,
            start == len ==> a == text@.len(),
            run_end(text@, 0, CharKind::Whitespace) == run_end(text@, a, CharKind::Whitespace),
        ensures
            0 <= a <= text@.len(),
            start == offset_of(text@, a),
            a == run_end(text@, 0, CharKind::Whitespace),
            a < text@.len() ==> kind_of(text@[a]) != CharKind::Whitespace,
        decreases len - start,
    {
        proof {
            lemma_offset_step(text@, a);
            lemma_offset_monotonic(text@, a + 1, text@.len() as int);
        }
        if !is_whitespace(char_at(text, start, Ghost(a))) {
            break;
        }
        start = step_forward(text, start, Ghost(a));
        proof {
            a = a + 1;
        }
    }
    let (_, body) = cut(text, start, Ghost(a));
    let mut end = byte_len(body);
    let ghost mut b: int = body@.len() as int;
    let ghost whole = text@.len() as int;
    proof {
        lemma_offset_ends(body@);
    }
    while end > 0
        invariant
            0 <= a <= whole,
            whole == text@.len(),
            body@ == text@.skip(a),
            0 <= b <= body@.len(),
            end == offset_of(body@, b),
            offset_of(body@, 0) == 0,
            run_start(text@, whole, CharKind::Whitespace) == run_start(
                text@,
                a + b,
                CharKind::Whitespace,
            ),
        ensures
            0 <= b <= body@.len(),
            end == offset_of(body@, b),
            run_start(text@, whole, CharKind::Whitespace) == run_start(
                text@,
                a + b,
                CharKind::Whitespace,
            ),
            b == 0 || a + b == run_start(text@, whole, CharKind::Whitespace),
        decreases end,
    {
        proof {
            lemma_offset_step(body@, b - 1);
        }
        let last = step_back(body, end, Ghost(b));
        if !is_whitespace(char_at(body, last, Ghost(b - 1))) {
            break;
        }
        end = last;
        proof {
            b = b - 1;
        }
    }
    let (result, _) = cut(body, end, Ghost(b));
    proof {
        if a < whole {
            lemma_run_start_stops(text@, whole, a);
            lemma_run_start(text@, a, CharKind::Whitespace);
            assert(result@ =~= trimmed(text@));
        } else {
            assert(result@ =~= trimmed(text@));
        }
    }
    result
}

proof fn lemma_run_start_stops(chars: Seq<char>, n: int, at: int)
    requires
        0 <= at < n <= chars.len(),
        kind_of(chars[at]) != CharKind::Whitespace,
    ensures
        run_start(chars, n, CharKind::Whitespace) > at,
    decreases n,
{
    if kind_of(chars[n - 1]) == CharKind::Whitespace {
        lemma_run_start_stops(chars, n - 1, at);
    }
}

/// An ASCII capital as the small letter; any other character as it is.
pub open spec fn ascii_lower(c: char) -> char {
    if 'A' <= c <= 'Z' {
        ((c as u32) + 32) as char
    } else {
        c
    }
}

fn to_ascii_lower(c: char) -> (result: char)
    ensures
        result == ascii_lower(c),
{
    if 'A' <= c && c <= 'Z' {
        ((c as u8) + 32) as char
    } else {
        c
    }
}

/// Whether two texts are the same up to the case of ASCII letters.
pub open spec fn same_ignoring_ascii_case(a: Seq<char>, b: Seq<char>) -> bool {
    a.len() == b.len() && forall|i: int|
        0 <= i < a.len() ==> ascii_lower(#[trigger] a[i]) == ascii_lower(b[i])
}

fn collect_chars(text: &str) -> (chars: Vec<char>)
    ensures
        chars@ == text@,
{
    let mut chars: Vec<char> = Vec::new();
    for c in iter: text.chars()
        invariant
            iter.seq() == text@,
            chars@ =~= text@.take(iter.index() as int),
    {
        chars.push(c);
    }
    chars
}

pub(crate) fn eq_ignore_ascii_case(a: &str, b: &str) -> (result: bool)
    ensures
        result == same_ignoring_ascii_case(a@, b@),
{
    let x = collect_chars(a);
    let y = collect_chars(b);
    if x.len() != y.len() {
        return false;
    }
    let mut i: usize = 0;
    while i < x.len()
        invariant
            x@ == a@,
            y@ == b@,
            x.len() == y.len(),
            i <= x.len(),
            forall|j: int| 0 <= j < i ==> ascii_lower(#[trigger] a@[j]) == ascii_lower(b@[j]),
        decreases x.len() - i,
    {
        if to_ascii_lower(x[i]) != to_ascii_lower(y[i]) {
            assert(ascii_lower(a@[i as int]) != ascii_lower(b@[i as int]));
            return false;
        }
        i = i + 1;
    }
    true
}

/// Whether a text within the scan budget is `expected` up to white space at
/// its ends and the case of ASCII letters.
pub fn passive_trimmed_eq_ignore_ascii_case(text: &str, expected: &str) -> (result: bool)
    ensures
        result == (scannable(text@) && same_ignoring_ascii_case(trimmed(text@), expected@)),
{
    byte_len(text) <= PASSIVE_TEXT_SCAN_MAX_BYTES && eq_ignore_ascii_case(trim(text), expected)
}

/// What restricts the characters that may be typed: a limit on their number,
/// and a function that replaces or rejects each of them.
pub struct TextInputPolicy<F> {
    pub max_chars: Option<usize>,
    pub sanitize: Option<F>,
}

impl<F: Fn(char) -> Option<char>> TextInputPolicy<F> {
    /// The policy may turn `command` into `accepted` (`None`: rejected). Only
    /// insertions are looked at.
    pub open spec fn admits(
        self,
        command: TextEditCommand,
        accepted: Option<TextEditCommand>,
    ) -> bool {
        match (command, self.sanitize) {
            (TextEditCommand::Insert(c), Some(sanitize)) => {
                ||| accepted is None && call_ensures(sanitize, (c,), None)
                ||| accepted matches Some(TextEditCommand::Insert(d)) && call_ensures(
                    sanitize,
                    (c,),
                    Some(d),
                )
            },
            _ => accepted == Some(command),
        }
    }
}

/// Whether a handled key changed anything.
#[derive(Debug, Clone, Copy, PartialEq, Eq, Structural)]
pub struct TextInputEdit {
    pub changed: bool,
}

/// Text and cursor position after a command.
pub open spec fn edited(
    chars: Seq<char>,
    n: int,
    command: TextEditCommand,
    max_chars: Option<usize>,
) -> (Seq<char>, int) {
    match command {
        TextEditCommand::MoveLeft => (chars, if n == 0 {
            0
        } else {
            n - 1
        }),
        TextEditCommand::MoveRight => (chars, if n == chars.len() {
            n
        } else {
            n + 1
        }),
        TextEditCommand::MoveLineStart => (chars, 0),
        TextEditCommand::MoveLineEnd => (chars, chars.len() as int),
        TextEditCommand::MoveWordLeft => (chars, previous_word(chars, n)),
        TextEditCommand::MoveWordRight => (chars, next_word(chars, n)),
        TextEditCommand::DeleteBackward => if n == 0 {
            (chars, n)
        } else {
            (chars.remove(n - 1), n - 1)
        },
        TextEditCommand::DeleteForward => if n == chars.len() {
            (chars, n)
        } else {
            (chars.remove(n), n)
        },
        TextEditCommand::DeleteToLineStart => (chars.skip(n), 0),
        TextEditCommand::DeleteToLineEnd => (chars.take(n), n),
        TextEditCommand::DeleteWordBackward => (
            chars.take(previous_word(chars, n)) + chars.skip(n),
            previous_word(chars, n),
        ),
        TextEditCommand::Insert(c) => if max_chars matches Some(max) && chars.len() >= max {
            (chars, n)
        } else {
            (chars.insert(n, c), n + 1)
        },
    }
}

impl TextInput {
    /// This input came out of `command` on `before`; `changed` tells whether
    /// the text or the cursor's position differs.
    pub open spec fn follows(
        self,
        before: TextInput,
        command: TextEditCommand,
        max_chars: Option<usize>,
        changed: bool,
    ) -> bool {
        let after = edited(before.value@, before.position(), command, max_chars);
        &&& self.value@ == after.0
        &&& self.at(after.1)
        &&& changed == (after != (before.value@, before.position()))
    }

    /// This input came out of a key on `before`. A key that is not bound leaves
    /// everything as it is.
    pub open spec fn took_key(
        self,
        before: TextInput,
        key: KeyEvent,
        edit: Option<TextInputEdit>,
    ) -> bool {
        match bound_command(key) {
            None => edit is None && self == before,
            Some(command) => edit matches Some(e) && self.follows(
                before,
                command,
                None,
                e.changed,
            ),
        }
    }

    /// This input came out of a command that the policy's function let pass
    /// as `accepted`, or rejected.
    pub open spec fn settles(
        self,
        before: TextInput,
        accepted: Option<TextEditCommand>,
        max_chars: Option<usize>,
        changed: bool,
    ) -> bool {
        match accepted {
            Some(command) => self.follows(before, command, max_chars, changed),
            None => !changed && self.value == before.value && self.at(before.position()),
        }
    }

    /// Carries out a command that has passed the policy's function.
    pub fn apply_accepted_command(
        &mut self,
        command: TextEditCommand,
        max_chars: Option<usize>,
    ) -> (changed: bool)
        ensures
            final(self).follows(*old(self), command, max_chars, changed),
    {
        let ghost n = self.position();
        let ghost chars = self.value@;
        proof {
            lemma_chars_within(chars, self.cursor as int);
            lemma_word_bounds(chars, n);
        }
        self.clamp_cursor();
        proof {
            lemma_chars_within_offset(chars, n);
            lemma_offset_ends(chars);
            lemma_offset_monotonic(chars, 0, n);
            lemma_offset_monotonic(chars, n, chars.len() as int);
            lemma_offset_monotonic(chars, previous_word(chars, n), n);
            lemma_offset_monotonic(chars, n, next_word(chars, n));
            if n > 0 {
                lemma_offset_step(chars, n - 1);
            }
            if n < chars.len() {
                lemma_offset_step(chars, n);
            }
            assert(chars.skip(0) =~= chars);
            assert(chars.take(chars.len() as int) =~= chars);
            assert(chars.take(n) + chars.skip(n) =~= chars);
        }
        match command {
            TextEditCommand::MoveLeft => self.move_left(),
            TextEditCommand::MoveRight => self.move_right(),
            TextEditCommand::MoveLineStart => self.move_home(),
            TextEditCommand::MoveLineEnd => self.move_end(),
            TextEditCommand::MoveWordLeft => self.move_word_left(),
            TextEditCommand::MoveWordRight => self.move_word_right(),
            TextEditCommand::DeleteBackward => self.backspace(),
            TextEditCommand::DeleteForward => self.delete(),
            TextEditCommand::DeleteToLineStart => self.delete_to_line_start(),
            TextEditCommand::DeleteToLineEnd => self.delete_to_line_end(),
            TextEditCommand::DeleteWordBackward => self.delete_word_backward(),
            TextEditCommand::Insert(c) => {
                let full = match max_chars {
                    Some(max) => self.reached_char_limit(max),
                    None => false,
                };
                if full {
                    false
                } else {
                    self.insert_char(c)
                }
            },
        }
    }

    /// Carries out a command under a policy. What the policy's function
    /// rejects only brings the cursor back to a character boundary.
    pub fn apply_command<F: Fn(char) -> Option<char>>(
        &mut self,
        command: TextEditCommand,
        policy: TextInputPolicy<F>,
    ) -> (changed: bool)
        requires
            policy.sanitize matches Some(f) ==> forall|c: char| #[trigger] call_requires(f, (c,)),
        ensures
            exists|accepted: Option<TextEditCommand>| #[trigger]
                policy.admits(command, accepted) && final(self).settles(
                    *old(self),
                    accepted,
                    policy.max_chars,
                    changed,
                ),
    {
        let accepted = match (command, &policy.sanitize) {
            (TextEditCommand::Insert(c), Some(sanitize)) => match sanitize(c) {
                Some(d) => Some(TextEditCommand::Insert(d)),
                None => None,
            },
            _ => Some(command),
        };
        let changed = match accepted {
            Some(accepted) => self.apply_accepted_command(accepted, policy.max_chars),
            None => {
                self.clamp_cursor();
                false
            },
        };
        proof {
            lemma_admitted(policy, command, accepted, *old(self), *self, changed);
        }
        changed
    }

    /// Handles a key without a policy. `None`: the key is not bound.
    pub fn apply_key(&mut self, key: KeyEvent) -> (edit: Option<TextInputEdit>)
        ensures
            final(self).took_key(*old(self), key, edit),
    {
        match TextEditCommand::from_key(key) {
            None => None,
            Some(command) => {
                let changed = self.apply_accepted_command(command, None);
                Some(TextInputEdit { changed })
            },
        }
    }

    /// Handles a key under a policy. `None`: the key is not bound.
    pub fn apply_key_with_policy<F: Fn(char) -> Option<char>>(
        &mut self,
        key: KeyEvent,
        policy: TextInputPolicy<F>,
    ) -> (edit: Option<TextInputEdit>)
        requires
            policy.sanitize matches Some(f) ==> forall|c: char| #[trigger] call_requires(f, (c,)),
        ensures
            edit is Some == bound_command(key) is Some,
            edit is None ==> *final(self) == *old(self),
            bound_command(key) matches Some(command) ==> exists|
                accepted: Option<TextEditCommand>,
            | #[trigger]
                policy.admits(command, accepted) && final(self).settles(
                    *old(self),
                    accepted,
                    policy.max_chars,
                    edit->0.changed,
                ),
    {
        match TextEditCommand::from_key(key) {
            None => None,
            Some(command) => {
                let changed = self.apply_command(command, policy);
                Some(TextInputEdit { changed })
            },
        }
    }
}

proof fn lemma_admitted<F: Fn(char) -> Option<char>>(
    policy: TextInputPolicy<F>,
    command: TextEditCommand,
    accepted: Option<TextEditCommand>,
    before: TextInput,
    after: TextInput,
    changed: bool,
)
    requires
        policy.admits(command, accepted),
        after.settles(before, accepted, policy.max_chars, changed),
    ensures
        exists|accepted: Option<TextEditCommand>| #[trigger]
            policy.admits(command, accepted) && after.settles(
                before,
                accepted,
                policy.max_chars,
                changed,
            ),
{
}

/// An edit in place: the field it belongs to, and the input and the error it
/// had before, which Escape brings back.
#[derive(Debug)]
pub struct TextEditSession<F> {
    target: F,
    original: TextInput,
    original_error: Option<String>,
}

impl<F> View for TextEditSession<F> {
    type V = (F, TextInput, Option<String>);

    closed spec fn view(&self) -> (F, TextInput, Option<String>) {
        (self.target, self.original, self.original_error)
    }
}

impl<F: Copy> TextEditSession<F> {
    pub fn new(target: F, original: TextInput, original_error: Option<String>) -> (session: Self)
        ensures
            session@ == (target, original, original_error),
    {
        Self { target, original, original_error }
    }

    pub fn target(&self) -> (target: F)
        ensures
            target == self@.0,
    {
        self.target
    }

    pub fn into_parts(self) -> (parts: (F, TextInput, Option<String>))
        ensures
            parts == self@,
    {
        (self.target, self.original, self.original_error)
    }
}

/// A command leaves the cursor within the text.
pub proof fn edits_stay_within_text(
    chars: Seq<char>,
    n: int,
    command: TextEditCommand,
    max_chars: Option<usize>,
)
    requires
        0 <= n <= chars.len(),
    ensures
        ({
            let after = edited(chars, n, command, max_chars);
            0 <= after.1 <= after.0.len()
        }),
{
    lemma_word_bounds(chars, n);
}

/// Backspace takes back what was just typed.
pub proof fn backspace_undoes_insert(chars: Seq<char>, n: int, c: char)
    requires
        0 <= n <= chars.len(),
    ensures
        ({
            let typed = edited(chars, n, TextEditCommand::Insert(c), None);
            edited(typed.0, typed.1, TextEditCommand::DeleteBackward, None) == (chars, n)
        }),
{
    assert(chars.insert(n, c).remove(n) =~= chars);
}

/// Backspace is a step to the left followed by Delete, except at the start,
/// where Backspace does nothing.
pub proof fn backspace_is_left_then_delete(chars: Seq<char>, n: int)
    requires
        0 < n <= chars.len(),
    ensures
        ({
            let left = edited(chars, n, TextEditCommand::MoveLeft, None);
            edited(left.0, left.1, TextEditCommand::DeleteForward, None) == edited(
                chars,
                n,
                TextEditCommand::DeleteBackward,
                None,
            )
        }),
{
}

/// A step to the right takes back a step to the left.
pub proof fn right_undoes_left(chars: Seq<char>, n: int)
    requires
        0 < n <= chars.len(),
    ensures
        ({
            let left = edited(chars, n, TextEditCommand::MoveLeft, None);
            edited(left.0, left.1, TextEditCommand::MoveRight, None) == (chars, n)
        }),
{
}

/// A text within its limit never outgrows it.
pub proof fn limit_is_kept(chars: Seq<char>, n: int, command: TextEditCommand, max: usize)
    requires
        0 <= n <= chars.len() <= max,
    ensures
        edited(chars, n, command, Some(max)).0.len() <= max,
{
    lemma_word_bounds(chars, n);
}

/// Deleting to both ends of the line clears it.
pub proof fn deleting_both_ways_clears(chars: Seq<char>, n: int)
    requires
        0 <= n <= chars.len(),
    ensures
        ({
            let front = edited(chars, n, TextEditCommand::DeleteToLineStart, None);
            edited(front.0, front.1, TextEditCommand::DeleteToLineEnd, None) == (
                Seq::<char>::empty(),
                0int,
            )
        }),
{
    assert(chars.skip(n).take(0) =~= Seq::<char>::empty());
}

/// Deleting a word removes what a word movement to the left passes over.
pub proof fn word_deletion_spans_word_movement(chars: Seq<char>, n: int)
    requires
        0 <= n <= chars.len(),
    ensures
        ({
            let moved = edited(chars, n, TextEditCommand::MoveWordLeft, None).1;
            let deleted = edited(chars, n, TextEditCommand::DeleteWordBackward, None);
            deleted.1 == moved && deleted.0 == chars.take(moved) + chars.skip(n)
        }),
        n > 0 ==> edited(chars, n, TextEditCommand::MoveWordLeft, None).1 < n,
{
    lemma_word_bounds(chars, n);
    lemma_run_start(chars, n, CharKind::Whitespace);
    let word_end = run_start(chars, n, CharKind::Whitespace);
    if word_end > 0 {
        lemma_run_start(chars, word_end, kind_of(chars[word_end - 1]));
    }
}

} // verus!
