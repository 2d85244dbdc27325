//! A single-line text field with a cursor.

use vstd::prelude::*;
use crate::key::KeyCode;
use crate::text::{chars_of, string_of};

verus! {

/// A line of text that is edited at a cursor.
#[derive(Debug, PartialEq, Eq)]
pub struct TextField {
    chars: Vec<char>,
    cursor: usize,
}

/// What a [`TextField`] holds.
pub struct TextFieldView {
    /// The characters of the line.
    pub content: Seq<char>,
    /// The place of the cursor: the number of characters before it.
    pub cursor: nat,
}

impl View for TextField {
    type V = TextFieldView;

    closed spec fn view(&self) -> TextFieldView {
        TextFieldView {
            content: self.chars@,
            cursor: if self.cursor <= self.chars@.len() {
                self.cursor as nat
            } else {
                self.chars@.len()
            },
        }
    }
}

impl TextFieldView {
    /// Whether the cursor stands inside the line or at its end.
    pub open spec fn wf(self) -> bool {
        self.cursor <= self.content.len()
    }

    /// The line after `c` was typed at the cursor.
    pub open spec fn typed(self, c: char) -> TextFieldView {
        TextFieldView { content: self.content.insert(self.cursor as int, c), cursor: self.cursor + 1 }
    }

    /// The line after the character before the cursor was deleted.
    pub open spec fn backspaced(self) -> TextFieldView {
        if self.cursor > 0 {
            TextFieldView {
                content: self.content.remove(self.cursor - 1),
                cursor: (self.cursor - 1) as nat,
            }
        } else {
            self
        }
    }

    /// The line after the character at the cursor was deleted.
    pub open spec fn deleted(self) -> TextFieldView {
        if self.cursor < self.content.len() {
            TextFieldView { content: self.content.remove(self.cursor as int), ..self }
        } else {
            self
        }
    }

    /// The line with the cursor at `cursor`.
    pub open spec fn at(self, cursor: nat) -> TextFieldView {
        TextFieldView { cursor, ..self }
    }

    /// The line with the cursor one place to the left, if there is one.
    pub open spec fn left(self) -> TextFieldView {
        if self.cursor > 0 {
            self.at((self.cursor - 1) as nat)
        } else {
            self
        }
    }

    /// The line with the cursor one place to the right, if there is one.
    pub open spec fn right(self) -> TextFieldView {
        if self.cursor < self.content.len() {
            self.at(self.cursor + 1)
        } else {
            self
        }
    }

    /// The line after a key was pressed in it. Keys that neither edit nor
    /// move leave it as it is.
    pub open spec fn edited(self, code: KeyCode) -> TextFieldView {
        match code {
            KeyCode::Backspace => self.backspaced(),
            KeyCode::Delete => self.deleted(),
            KeyCode::Left => self.left(),
            KeyCode::Right => self.right(),
            KeyCode::Home => self.at(0),
            KeyCode::End => self.at(self.content.len()),
            KeyCode::Char(c) => self.typed(c),
            _ => self,
        }
    }

    /// The empty line.
    pub open spec fn blank() -> TextFieldView {
        TextFieldView { content: Seq::empty(), cursor: 0 }
    }
}

impl TextField {
    /// The place of the cursor, which never lies past the end of the line.
    fn place(&self) -> (place: usize)
        ensures
            place == self@.cursor,
            place <= self.chars@.len(),
    {
        if self.cursor <= self.chars.len() {
            self.cursor
        } else {
            self.chars.len()
        }
    }

    /// The cursor of a field stands inside its line or at its end.
    pub proof fn lemma_cursor_in_line(self)
        ensures
            self@.wf(),
    {
    }

    /// A field that holds `content`, with the cursor at its end.
    pub fn new(content: String) -> (field: TextField)
        ensures
            field@.content == content@,
            field@.cursor == content@.len(),
    {
        let chars = chars_of(content.as_str());
        let cursor = chars.len();
        TextField { chars, cursor }
    }

    /// The text of the field.
    pub fn get_content(&self) -> (content: String)
        ensures
            content@ == self@.content,
    {
        string_of(&self.chars)
    }

    /// Whether the field holds no character.
    pub fn is_empty(&self) -> (empty: bool)
        ensures
            empty == (self@.content.len() == 0),
    {
        self.chars.len() == 0
    }

    /// The number of characters before the cursor.
    pub fn cursor(&self) -> (cursor: usize)
        ensures
            cursor == self@.cursor,
            cursor <= self@.content.len(),
    {
        self.place()
    }

    /// Empties the field.
    pub fn clear(&mut self)
        ensures
            final(self)@ == TextFieldView::blank(),
    {
        self.cursor = 0;
        self.chars.clear();
    }

    /// Types `c` at the cursor.
    pub fn enter_char(&mut self, c: char)
        ensures
            final(self)@ == old(self)@.typed(c),
    {
        let place = self.place();
        self.chars.insert(place, c);
        let grown: usize = self.chars.len();
        assert(place < grown);
        self.cursor = place + 1;
    }

    /// Deletes the character before the cursor, if there is one.
    pub fn delete_pre_char(&mut self)
        ensures
            final(self)@ == old(self)@.backspaced(),
    {
        let place = self.place();
        if place > 0 {
            self.chars.remove(place - 1);
            self.cursor = place - 1;
        } else {
            self.cursor = place;
        }
    }

    /// Deletes the character at the cursor, if there is one.
    pub fn delete_suf_char(&mut self)
        ensures
            final(self)@ == old(self)@.deleted(),
    {
        let place = self.place();
        if place < self.chars.len() {
            self.chars.remove(place);
        }
        self.cursor = place;
    }

    /// Moves the cursor one place to the left, if it is not at the start.
    pub fn move_cursor_left(&mut self)
        ensures
            final(self)@ == old(self)@.left(),
    {
        let place = self.place();
        self.cursor = if place > 0 {
            place - 1
        } else {
            place
        };
    }

    /// Moves the cursor one place to the right, if it is not at the end.
    pub fn move_cursor_right(&mut self)
        ensures
            final(self)@ == old(self)@.right(),
    {
        let place = self.place();
        self.cursor = if place < self.chars.len() {
            place + 1
        } else {
            place
        };
    }

    /// Moves the cursor to the start of the line.
    pub fn home_of_cursor(&mut self)
        ensures
            final(self)@ == old(self)@.at(0),
    {
        self.cursor = 0;
    }

    /// Moves the cursor to the end of the line.
    pub fn end_of_cursor(&mut self)
        ensures
            final(self)@ == old(self)@.at(old(self)@.content.len()),
    {
        self.cursor = self.chars.len();
    }

    /// Applies a key press to the line: typing, deleting, or moving the
    /// cursor. Other keys change nothing.
    pub fn edit(&mut self, code: KeyCode)
        ensures
            final(self)@ == old(self)@.edited(code),
    {
        match code {
            KeyCode::Backspace => self.delete_pre_char(),
            KeyCode::Delete => self.delete_suf_char(),
            KeyCode::Left => self.move_cursor_left(),
            KeyCode::Right => self.move_cursor_right(),
            KeyCode::Home => self.home_of_cursor(),
            KeyCode::End => self.end_of_cursor(),
            KeyCode::Char(c) => self.enter_char(c),
            _ => {},
        }
    }
}

} // verus!
