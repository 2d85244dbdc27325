//! Key presses as the controller reads them.

use vstd::prelude::*;

verus! {

/// The key of a key press.
#[derive(Clone, Copy, PartialEq, Eq, Structural, Debug)]
pub enum KeyCode {
    /// A character key.
    Char(char),
    /// A function key, by its number.
    F(u8),
    Esc,
    Tab,
    Enter,
    Backspace,
    Delete,
    Left,
    Right,
    Up,
    Down,
    Home,
    End,
    /// Any key that the controller gives no meaning.
    Other,
}

/// A key event of the terminal.
#[derive(Clone, Copy, PartialEq, Eq, Structural, Debug)]
pub struct KeyEvent {
    pub code: KeyCode,
    /// Whether the control key was held.
    pub control: bool,
    /// Whether the key went down; releases and repeats are not presses.
    pub pressed: bool,
}

impl KeyEvent {
    /// Whether the event is the character `c` typed with the control key.
    pub open spec fn is_control(self, c: char) -> bool {
        self.control && self.code == KeyCode::Char(c)
    }

    /// Whether the event asks to show or hide the sidebar.
    pub open spec fn toggles_sidebar(self) -> bool {
        self.is_control('s') || self.code == KeyCode::F(3)
    }

    /// Whether the event asks for the image path popup.
    pub open spec fn asks_image_path(self) -> bool {
        self.is_control('i') || self.code == KeyCode::F(4)
    }

    /// Whether the event starts or ends the editing of the title.
    pub open spec fn edits_title(self) -> bool {
        self.is_control('t') || self.code == KeyCode::F(1)
    }

    /// A press of `code` without the control key.
    pub fn press(code: KeyCode) -> (event: KeyEvent)
        ensures
            event == (KeyEvent { code, control: false, pressed: true }),
    {
        KeyEvent { code, control: false, pressed: true }
    }

    /// A press of the character `c` with the control key.
    pub fn with_control(c: char) -> (event: KeyEvent)
        ensures
            event == (KeyEvent { code: KeyCode::Char(c), control: true, pressed: true }),
    {
        KeyEvent { code: KeyCode::Char(c), control: true, pressed: true }
    }

    /// Whether the event is the character `c` typed with the control key.
    pub fn is_control_char(&self, c: char) -> (hit: bool)
        ensures
            hit == self.is_control(c),
    {
        self.control && match self.code {
            KeyCode::Char(typed) => typed == c,
            _ => false,
        }
    }

    /// Whether the event is the function key with this number.
    pub fn is_function(&self, number: u8) -> (hit: bool)
        ensures
            hit == (self.code == KeyCode::F(number)),
    {
        match self.code {
            KeyCode::F(n) => n == number,
            _ => false,
        }
    }
}

} // verus!
