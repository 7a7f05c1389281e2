//! Terminal events as plain values.

use vstd::prelude::*;

verus! {

/// A key of the keyboard. Media and modifier keys, which nothing here tells
/// apart, are `Other`.
#[derive(Debug, Clone, Copy, PartialEq, Eq, Structural)]
pub enum KeyCode {
    Backspace,
    Enter,
    Left,
    Right,
    Up,
    Down,
    Home,
    End,
    PageUp,
    PageDown,
    Tab,
    BackTab,
    Delete,
    Insert,
    F(u8),
    Char(char),
    Null,
    Esc,
    Other,
}

/// The modifier keys held down with a key.
#[derive(Debug, Clone, Copy, PartialEq, Eq, Structural)]
pub struct KeyModifiers {
    pub shift: bool,
    pub control: bool,
    pub alt: bool,
    pub super_key: bool,
    pub hyper: bool,
    pub meta: bool,
}

impl KeyModifiers {
    pub open spec fn spec_none() -> KeyModifiers {
        KeyModifiers {
            shift: false,
            control: false,
            alt: false,
            super_key: false,
            hyper: false,
            meta: false,
        }
    }

    /// No modifier.
    pub fn none() -> (modifiers: KeyModifiers)
        ensures
            modifiers == Self::spec_none(),
    {
        KeyModifiers {
            shift: false,
            control: false,
            alt: false,
            super_key: false,
            hyper: false,
            meta: false,
        }
    }

    /// Control alone.
    pub fn control() -> (modifiers: KeyModifiers)
        ensures
            modifiers == (KeyModifiers { control: true, ..Self::spec_none() }),
    {
        KeyModifiers {
            shift: false,
            control: true,
            alt: false,
            super_key: false,
            hyper: false,
            meta: false,
        }
    }

    /// Alt alone.
    pub fn alt() -> (modifiers: KeyModifiers)
        ensures
            modifiers == (KeyModifiers { alt: true, ..Self::spec_none() }),
    {
        KeyModifiers {
            shift: false,
            control: false,
            alt: true,
            super_key: false,
            hyper: false,
            meta: false,
        }
    }
}

#[derive(Debug, Clone, Copy, PartialEq, Eq, Structural)]
pub enum KeyEventKind {
    Press,
    Repeat,
    Release,
}

#[derive(Debug, Clone, Copy, PartialEq, Eq, Structural)]
pub struct KeyEvent {
    pub code: KeyCode,
    pub modifiers: KeyModifiers,
    pub kind: KeyEventKind,
}

impl KeyEvent {
    /// A key press.
    pub fn new(code: KeyCode, modifiers: KeyModifiers) -> (key: KeyEvent)
        ensures
            key == (KeyEvent { code, modifiers, kind: KeyEventKind::Press }),
    {
        KeyEvent { code, modifiers, kind: KeyEventKind::Press }
    }
}

/// What the mouse did. Movement, clicks and horizontal scrolling are `Other`.
#[derive(Debug, Clone, Copy, PartialEq, Eq, Structural)]
pub enum MouseEventKind {
    ScrollUp,
    ScrollDown,
    Other,
}

/// An event read from the terminal. Focus changes and pastes are `Other`.
#[derive(Debug, Clone, Copy, PartialEq, Eq, Structural)]
pub enum Event {
    Key(KeyEvent),
    Mouse(MouseEventKind),
    Resize { width: u16, height: u16 },
    Other,
}

/// What a key stands for. Terminals that send Backspace as Ctrl+H deliver it
/// as the letter `h` under Control.
pub open spec fn normalized(key: KeyEvent) -> KeyEvent {
    if key.modifiers.control && key.code == KeyCode::Char('h') {
        KeyEvent {
            code: KeyCode::Backspace,
            modifiers: KeyModifiers { control: false, ..key.modifiers },
            ..key
        }
    } else {
        key
    }
}

/// Turns Ctrl+H into Backspace without Control; every other key stays as it
/// is.
pub fn normalize_key_event(key: KeyEvent) -> (result: KeyEvent)
    ensures
        result == normalized(key),
{
    if key.modifiers.control && key.code == KeyCode::Char('h') {
        let mut modifiers = key.modifiers;
        modifiers.control = false;
        KeyEvent { code: KeyCode::Backspace, modifiers, kind: key.kind }
    } else {
        key
    }
}

/// Normalizing a key twice is normalizing it once.
pub proof fn normalizing_is_idempotent(key: KeyEvent)
    ensures
        normalized(normalized(key)) == normalized(key),
{
}

/// Which keys leave the program while its first data is still loading: `q`,
/// `Q`, Escape, and Ctrl+C.
pub open spec fn quits_initial_loading(key: KeyEvent) -> bool {
    ||| key.code == KeyCode::Char('q')
    ||| key.code == KeyCode::Char('Q')
    ||| key.code == KeyCode::Esc
    ||| key.code == KeyCode::Char('c') && key.modifiers.control
}

pub fn is_initial_loading_quit_key(key: &KeyEvent) -> (quits: bool)
    ensures
        quits == quits_initial_loading(*key),
{
    match key.code {
        KeyCode::Char('q') | KeyCode::Char('Q') | KeyCode::Esc => true,
        KeyCode::Char('c') => key.modifiers.control,
        _ => false,
    }
}

} // verus!
