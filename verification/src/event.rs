//! Input events as plain values.
//!
//! The dispatch chain only ever inspects what kind of occurrence an event
//! is, so events are modelled as small copyable values that the caller
//! fills in from whatever input source it reads.

use vstd::prelude::*;

verus! {

/// Whether a key went down, is being held, or came up.
#[derive(Clone, Copy, Debug, PartialEq, Eq, Structural)]
pub enum KeyEventKind {
    Press,
    Repeat,
    Release,
}

/// The key a key event is about.
#[derive(Clone, Copy, Debug, PartialEq, Eq, Structural)]
pub enum KeyCode {
    Backspace,
    Enter,
    Left,
    Right,
    Up,
    Down,
    Home,
    End,
    PageUp,
    PageDown,
    Tab,
    BackTab,
    Delete,
    Insert,
    /// A function key, `F(1)` for F1.
    F(u8),
    /// A key that produces a character.
    Char(char),
    Null,
    Esc,
    CapsLock,
    ScrollLock,
    NumLock,
    PrintScreen,
    Pause,
    Menu,
    KeypadBegin,
    /// A media key; which one is not recorded.
    Media,
    /// A modifier key on its own; which one is not recorded.
    Modifier,
}

/// A key press, repeat or release together with the modifier keys held.
#[derive(Clone, Copy, Debug, PartialEq, Eq, Structural)]
pub struct KeyEvent {
    pub code: KeyCode,
    /// Modifier keys as a bit set: shift 1, control 2, alt 4, super 8,
    /// hyper 16, meta 32.
    pub modifiers: u8,
    pub kind: KeyEventKind,
}

/// One input occurrence.
#[derive(Clone, Copy, Debug, PartialEq, Eq, Structural)]
pub enum Event {
    FocusGained,
    FocusLost,
    Key(KeyEvent),
    /// A mouse action at a screen cell.
    Mouse { column: u16, row: u16 },
    /// Pasted text arrived; the text itself is not part of the event.
    Paste,
    /// The terminal now has this many columns and rows.
    Resize { columns: u16, rows: u16 },
}

impl KeyEvent {
    /// A key press of `code` with no modifier held.
    pub fn press(code: KeyCode) -> (key: KeyEvent)
        ensures
            key == (KeyEvent { code, modifiers: 0, kind: KeyEventKind::Press }),
    {
        KeyEvent { code, modifiers: 0, kind: KeyEventKind::Press }
    }
}

impl Event {
    /// The key event inside, unless the event is a key release or not a
    /// key event at all.
    pub open spec fn active_key(self) -> Option<KeyEvent> {
        match self {
            Event::Key(key) => if key.kind == KeyEventKind::Release {
                None
            } else {
                Some(key)
            },
            _ => None,
        }
    }

    /// Executable form of [`Event::active_key`].
    pub fn pressed_key(&self) -> (key: Option<KeyEvent>)
        ensures
            key == self.active_key(),
    {
        match self {
            Event::Key(key) => match key.kind {
                KeyEventKind::Release => None,
                _ => Some(*key),
            },
            _ => None,
        }
    }
}

} // verus!
