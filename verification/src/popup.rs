//! Dialogs that take the keyboard away from the main window.

use vstd::prelude::*;
use crate::input::{TextField, TextFieldView};
use crate::key::{KeyCode, KeyEvent};

verus! {

/// The buttons of the dialog that confirms a deletion.
#[derive(Clone, Copy, PartialEq, Eq, Structural, Debug)]
pub enum DeleteButton {
    Confirm,
    Cancel,
}

/// The dialog that asks whether a conversation shall be deleted.
#[derive(Clone, Copy, PartialEq, Eq, Structural, Debug)]
pub struct DeletePopup {
    /// The button that Enter would press.
    pub selected: DeleteButton,
    pub width: usize,
    pub height: usize,
}

impl DeletePopup {
    /// The button that is selected after the next one is asked for.
    pub open spec fn other(button: DeleteButton) -> DeleteButton {
        match button {
            DeleteButton::Confirm => DeleteButton::Cancel,
            DeleteButton::Cancel => DeleteButton::Confirm,
        }
    }

    /// Selects the other button.
    pub fn next_button(&mut self)
        ensures
            final(self).selected == DeletePopup::other(old(self).selected),
            final(self).width == old(self).width,
            final(self).height == old(self).height,
    {
        self.selected = match self.selected {
            DeleteButton::Confirm => DeleteButton::Cancel,
            DeleteButton::Cancel => DeleteButton::Confirm,
        };
    }

    /// Presses the selected button; tells whether the deletion is confirmed.
    pub fn press(&self) -> (confirmed: bool)
        ensures
            confirmed == (self.selected == DeleteButton::Confirm),
    {
        match self.selected {
            DeleteButton::Confirm => true,
            DeleteButton::Cancel => false,
        }
    }
}

impl Default for DeletePopup {
    /// The dialog opens with the button that cancels selected.
    fn default() -> (popup: DeletePopup)
        ensures
            popup == (DeletePopup { selected: DeleteButton::Cancel, width: 40, height: 5 }),
    {
        DeletePopup { selected: DeleteButton::Cancel, width: 40, height: 5 }
    }
}

/// What a key press in the path popup led to.
#[derive(Debug, PartialEq, Eq)]
pub enum InputPopupHandleEvent {
    /// The text was committed.
    Save(String),
    /// The popup was dismissed.
    Cancel,
    /// The popup stays open.
    Nothing,
}

/// An [`InputPopupHandleEvent`] with its text as a sequence of characters.
pub enum InputPopupHandleEventView {
    Save(Seq<char>),
    Cancel,
    Nothing,
}

impl View for InputPopupHandleEvent {
    type V = InputPopupHandleEventView;

    open spec fn view(&self) -> InputPopupHandleEventView {
        match self {
            InputPopupHandleEvent::Save(text) => InputPopupHandleEventView::Save(text@),
            InputPopupHandleEvent::Cancel => InputPopupHandleEventView::Cancel,
            InputPopupHandleEvent::Nothing => InputPopupHandleEventView::Nothing,
        }
    }
}

/// A popup with one line of text to edit.
#[derive(Debug, PartialEq, Eq)]
pub struct InputPopup {
    field: TextField,
    pub width: usize,
    pub height: usize,
}

/// What an [`InputPopup`] holds.
pub struct InputPopupView {
    pub field: TextFieldView,
    pub width: usize,
    pub height: usize,
}

impl View for InputPopup {
    type V = InputPopupView;

    closed spec fn view(&self) -> InputPopupView {
        InputPopupView { field: self.field@, width: self.width, height: self.height }
    }
}

impl InputPopupView {
    /// What a key press in the popup leads to: Enter commits the text, Esc
    /// dismisses the popup, and every other key leaves it open.
    pub open spec fn outcome(self, code: KeyCode) -> InputPopupHandleEventView {
        match code {
            KeyCode::Enter => InputPopupHandleEventView::Save(self.field.content),
            KeyCode::Esc => InputPopupHandleEventView::Cancel,
            _ => InputPopupHandleEventView::Nothing,
        }
    }

    /// The popup after a key press: its line is edited by the key.
    pub open spec fn after_key(self, code: KeyCode) -> InputPopupView {
        InputPopupView { field: self.field.edited(code), ..self }
    }
}

impl InputPopup {
    /// A popup that holds `content`, with the cursor at its end.
    pub fn new(content: String, width: usize, height: usize) -> (popup: InputPopup)
        ensures
            popup@.field.content == content@,
            popup@.field.cursor == content@.len(),
            popup@.width == width,
            popup@.height == height,
    {
        InputPopup { field: TextField::new(content), width, height }
    }

    /// Sets the size at which the popup is drawn.
    pub fn set_size(&mut self, width: usize, height: usize)
        ensures
            final(self)@ == (InputPopupView { width, height, ..old(self)@ }),
    {
        self.width = width;
        self.height = height;
    }

    /// The text of the popup.
    pub fn get_content(&self) -> (content: String)
        ensures
            content@ == self@.field.content,
    {
        self.field.get_content()
    }

    /// The number of characters before the cursor.
    pub fn cursor(&self) -> (cursor: usize)
        ensures
            cursor == self@.field.cursor,
    {
        self.field.cursor()
    }

    /// Handles a key press in the popup.
    pub fn handle_key(&mut self, key: KeyEvent) -> (event: InputPopupHandleEvent)
        ensures
            event@ == old(self)@.outcome(key.code),
            final(self)@ == old(self)@.after_key(key.code),
    {
        match key.code {
            KeyCode::Enter => InputPopupHandleEvent::Save(self.field.get_content()),
            KeyCode::Esc => InputPopupHandleEvent::Cancel,
            code => {
                self.field.edit(code);
                InputPopupHandleEvent::Nothing
            },
        }
    }
}

} // verus!
