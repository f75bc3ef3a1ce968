//! Keyboard input as the game understands it, and what the raw key events
//! of the terminal backend mean to it.

use vstd::prelude::*;

verus! {

/// The keys the game reacts to, besides printable characters.
#[derive(Clone, Copy, Debug, PartialEq, Eq, Structural)]
pub enum KeyCode {
    // Arrow keys
    Up,
    Down,
    Left,
    Right,
    // Special
    Shift,
    Escape,
    // Default
    NoKey,
}

#[derive(Clone, Copy, Debug, PartialEq, Eq, Structural)]
pub enum Key {
    Printable(char),
    SpecialKey(KeyCode),
}

/// One keypress, as consumed by the movement strategies and the game states.
#[derive(Clone, Copy, Debug, PartialEq, Eq, Structural)]
pub struct KeyboardInput {
    pub key: Key,
}

/// The non-printable keys of a raw event that the game tells apart.
#[derive(Clone, Copy, Debug, PartialEq, Eq, Structural)]
pub enum RawKeyCode {
    Number5,
    Number6,
    Number8,
    Up,
    Down,
    Left,
    Right,
    Shift,
    Escape,
    Other,
}

#[derive(Clone, Copy, Debug, PartialEq, Eq, Structural)]
pub enum RawKey {
    Printable(char),
    Special(RawKeyCode),
}

/// A raw key event: the key, and whether shift was held with it.
#[derive(Clone, Copy, Debug, PartialEq, Eq, Structural)]
pub struct KeyState {
    pub key: RawKey,
    pub shift: bool,
}

/// The direction of an arrow key, as a unit offset `(dx, dy)`; `(0, 0)` for
/// every other key. The y axis grows downward, so Up is `(0, -1)`.
pub open spec fn arrow_offset(key: Key) -> (int, int) {
    match key {
        Key::SpecialKey(KeyCode::Up) => (0, -1),
        Key::SpecialKey(KeyCode::Down) => (0, 1),
        Key::SpecialKey(KeyCode::Left) => (-1, 0),
        Key::SpecialKey(KeyCode::Right) => (1, 0),
        _ => (0, 0),
    }
}

pub open spec fn is_arrow(key: Key) -> bool {
    key == Key::SpecialKey(KeyCode::Up) || key == Key::SpecialKey(KeyCode::Down) || key
        == Key::SpecialKey(KeyCode::Left) || key == Key::SpecialKey(KeyCode::Right)
}

impl KeyboardInput {
    pub fn new(key: Key) -> (k: KeyboardInput)
        ensures
            k.key == key,
    {
        KeyboardInput { key }
    }

    /// The unit offset of an arrow key, `(0, 0)` for any other key.
    pub fn direction(&self) -> (d: (i32, i32))
        ensures
            (d.0 as int, d.1 as int) == arrow_offset(self.key),
    {
        match self.key {
            Key::SpecialKey(KeyCode::Up) => (0, -1),
            Key::SpecialKey(KeyCode::Down) => (0, 1),
            Key::SpecialKey(KeyCode::Left) => (-1, 0),
            Key::SpecialKey(KeyCode::Right) => (1, 0),
            _ => (0, 0),
        }
    }
}

/// What a raw key event means to the game. With shift held, only the three
/// weapon digits count, as the characters printed above them; without it,
/// the slash, the arrows, Shift and Escape. Everything else is no key.
pub open spec fn key_meaning(key_state: KeyState) -> KeyboardInput {
    KeyboardInput {
        key: if key_state.shift {
            match key_state.key {
                RawKey::Special(RawKeyCode::Number5) => Key::Printable('%'),
                RawKey::Special(RawKeyCode::Number6) => Key::Printable('^'),
                RawKey::Special(RawKeyCode::Number8) => Key::Printable('*'),
                _ => Key::SpecialKey(KeyCode::NoKey),
            }
        } else {
            match key_state.key {
                RawKey::Printable(c) => if c == '/' {
                    Key::Printable('/')
                } else {
                    Key::SpecialKey(KeyCode::NoKey)
                },
                RawKey::Special(RawKeyCode::Up) => Key::SpecialKey(KeyCode::Up),
                RawKey::Special(RawKeyCode::Down) => Key::SpecialKey(KeyCode::Down),
                RawKey::Special(RawKeyCode::Left) => Key::SpecialKey(KeyCode::Left),
                RawKey::Special(RawKeyCode::Right) => Key::SpecialKey(KeyCode::Right),
                RawKey::Special(RawKeyCode::Shift) => Key::SpecialKey(KeyCode::Shift),
                RawKey::Special(RawKeyCode::Escape) => Key::SpecialKey(KeyCode::Escape),
                _ => Key::SpecialKey(KeyCode::NoKey),
            }
        },
    }
}

/// Turns the raw events of some backend, of type `T`, into `KeyboardInput`.
pub trait InputComponent<T>: Sized {
    /// What a raw event means, by this component.
    spec fn meaning(&self, raw: T) -> KeyboardInput;

    fn new() -> Self;

    fn translate_input(&self, raw: T) -> (k: KeyboardInput)
        ensures
            k == self.meaning(raw),
    ;
}

/// Reads the key events of the terminal backend.
#[derive(Clone, Copy, Debug)]
pub struct TcodInputComponent;

impl InputComponent<KeyState> for TcodInputComponent {
    open spec fn meaning(&self, raw: KeyState) -> KeyboardInput {
        key_meaning(raw)
    }

    fn new() -> TcodInputComponent {
        TcodInputComponent
    }

    fn translate_input(&self, key_state: KeyState) -> (k: KeyboardInput) {
        let key: Key = if key_state.shift {
            match key_state.key {
                RawKey::Special(RawKeyCode::Number5) => Key::Printable('%'),
                RawKey::Special(RawKeyCode::Number6) => Key::Printable('^'),
                RawKey::Special(RawKeyCode::Number8) => Key::Printable('*'),
                _ => Key::SpecialKey(KeyCode::NoKey),
            }
        } else {
            match key_state.key {
                RawKey::Printable('/') => Key::Printable('/'),
                RawKey::Special(RawKeyCode::Up) => Key::SpecialKey(KeyCode::Up),
                RawKey::Special(RawKeyCode::Down) => Key::SpecialKey(KeyCode::Down),
                RawKey::Special(RawKeyCode::Left) => Key::SpecialKey(KeyCode::Left),
                RawKey::Special(RawKeyCode::Right) => Key::SpecialKey(KeyCode::Right),
                RawKey::Special(RawKeyCode::Shift) => Key::SpecialKey(KeyCode::Shift),
                RawKey::Special(RawKeyCode::Escape) => Key::SpecialKey(KeyCode::Escape),
                _ => Key::SpecialKey(KeyCode::NoKey),
            }
        };
        KeyboardInput { key: key }
    }
}

} // verus!
