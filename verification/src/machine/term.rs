//! The keys of the machine's terminal.
use vstd::prelude::*;

verus! {

/// A key that the machine reacts to.
#[derive(Clone, Copy, Debug, PartialEq, Eq, Structural)]
pub enum Key {
    Right,
    Left,
    Up,
    Down,
    Char(char),
    F1,
    F2,
    ESC,
}

/// A key as the terminal reports it.
#[derive(Clone, Copy, Debug, PartialEq, Eq, Structural)]
pub enum TermKey {
    Tab,
    Enter,
    Esc,
    Backspace,
    Right,
    Left,
    Up,
    Down,
    Delete,
    Insert,
    Home,
    End,
    PageUp,
    PageDown,
    Char(char),
    Ctrl(char),
    F(u32),
    Unknown(u16),
}

impl Key {
    /// The key that a key press reported by the terminal stands for: the
    /// four arrow keys are read, every other press is ignored.
    pub fn from_term_key(key: Option<TermKey>) -> (r: Option<Key>)
        ensures
            r == match key {
                Some(TermKey::Up) => Some(Key::Up),
                Some(TermKey::Down) => Some(Key::Down),
                Some(TermKey::Left) => Some(Key::Left),
                Some(TermKey::Right) => Some(Key::Right),
                _ => None::<Key>,
            },
    {
        match key {
            Some(TermKey::Up) => Some(Key::Up),
            Some(TermKey::Down) => Some(Key::Down),
            Some(TermKey::Left) => Some(Key::Left),
            Some(TermKey::Right) => Some(Key::Right),
            _ => None,
        }
    }
}

} // verus!
