//! The rules of the main window, as functions on what it holds.
//!
//! [`UIView`] is the window without its machinery: plain values and texts as
//! sequences of characters. Every change that the window can undergo is a
//! function from one such value to the next, and the contracts of
//! [`crate::main_page::UI`] say which one a call performs.

use vstd::prelude::*;
use crate::config::{chosen_key, configured, keyed, keyed_config, or_empty, StoreDataView};
use crate::focus::MainFocusComponent;
use crate::history::{exchanged, history_of, restarted, ImageLookupView};
use crate::input::TextFieldView;
use crate::key::{KeyCode, KeyEvent};
use crate::language_model::GeminiView;
use crate::main_page::{
    ActionView, ChatItemListScrollProps, ChatTypeView, CurrentWindows, EventView, FreshIdsView,
    InputLineView, ResponseStatusView, SettingUI,
};
use crate::message::{
    has_success, lemma_settled_counts_zero, pending_count, ChatMessageView, DeliveryStatus,
    SenderView,
};
use crate::popup::{DeletePopup, InputPopupHandleEventView, InputPopupView};
use crate::record::{ConversationView, EncodedImageView};
use crate::store::StoreView;
use crate::text::normalized;

verus! {

/// What a [`crate::main_page::UI`] holds.
pub struct UIView {
    /// Whether a message is with the backend and its reply is awaited.
    pub receiving_message: bool,
    /// The outcome of the last exchange.
    pub response_status: ResponseStatusView,
    /// Whether the user has asked to leave the program.
    pub should_exit: bool,
    /// The client of the backend, once there is a key.
    pub gemini: Option<GeminiView>,
    /// The component that owns the keyboard.
    pub focus_component: MainFocusComponent,
    /// The input line.
    pub input: TextFieldView,
    /// The window on screen.
    pub current_windows: CurrentWindows,
    /// The path of the image that goes with the next message.
    pub image_path: Option<Seq<char>>,
    /// The title of the conversation; empty until one is derived or typed.
    pub title: Seq<char>,
    /// The id of the conversation; empty until an exchange has succeeded.
    pub conversation_id: Seq<char>,
    /// Whether a title has been asked for and not yet arrived.
    pub gen_title_ing: bool,
    /// The version of the store's tables as the configuration records it.
    pub db_version: Option<Seq<char>>,
    /// The line in which the title is edited, while it is.
    pub title_editor: Option<TextFieldView>,
    /// The popup for the image path, while it is open.
    pub image_popup: Option<InputPopupView>,
    /// The sidebar and its list.
    pub chat_item_list: ChatItemListScrollProps,
    /// The transcript.
    pub chat_history: Seq<ChatMessageView>,
    pub scroll_offset: u16,
    pub chat_history_area_height: u16,
}

impl UIView {
    /// The window as the program starts: nothing typed, nothing said, focus
    /// on the input line.
    pub open spec fn initial() -> UIView {
        UIView {
            receiving_message: false,
            response_status: ResponseStatusView::Idle,
            should_exit: false,
            gemini: None,
            focus_component: MainFocusComponent::InputField,
            input: TextFieldView::blank(),
            current_windows: CurrentWindows::MainWindow,
            image_path: None,
            title: Seq::empty(),
            conversation_id: Seq::empty(),
            gen_title_ing: false,
            db_version: None,
            title_editor: None,
            image_popup: None,
            chat_item_list: ChatItemListScrollProps {
                show: true,
                selected_conversation: 0,
                popup_delete_confirm_dialog: None,
            },
            chat_history: Seq::empty(),
            scroll_offset: 0,
            chat_history_area_height: 0,
        }
    }

    /// Whether the last turn of the transcript waits for its reply.
    pub open spec fn last_is_pending(self) -> bool {
        self.chat_history.len() > 0 && self.chat_history.last().status == DeliveryStatus::Pending
    }

    /// The invariant of the window: focus is on a component that is on
    /// screen; a reply is awaited exactly while the last turn is pending; no
    /// earlier turn is pending; and a reply is only awaited from a client and
    /// for a turn of the user.
    pub open spec fn wf(self) -> bool {
        &&& self.focus_component.shown(self.chat_item_list.show)
        &&& self.receiving_message <==> self.last_is_pending()
        &&& forall|i: int|
            0 <= i && i + 1 < self.chat_history.len() ==> (#[trigger] self.chat_history[i]).status
                != DeliveryStatus::Pending
        &&& self.receiving_message ==> self.gemini is Some
        &&& self.receiving_message ==> self.chat_history.last().sender is User
    }

    /// Whether the conversation has an id exactly if an exchange of it has
    /// succeeded.
    pub open spec fn id_tells_success(self) -> bool {
        self.conversation_id.len() > 0 <==> has_success(self.chat_history)
    }

    /// The path of the attached image; empty where there is none.
    pub open spec fn attached(self) -> Seq<char> {
        match self.image_path {
            Some(path) => path,
            None => Seq::empty(),
        }
    }

    /// The window after focus advanced by one step.
    pub open spec fn advanced(self) -> UIView {
        UIView {
            focus_component: self.focus_component.successor(self.chat_item_list.show),
            ..self
        }
    }

    /// The window after the sidebar was switched: a sidebar that goes off
    /// screen hands focus to the input line.
    pub open spec fn sidebar_toggled(self) -> UIView {
        UIView {
            focus_component: self.focus_component.after_toggle(self.chat_item_list.show),
            chat_item_list: ChatItemListScrollProps {
                show: !self.chat_item_list.show,
                ..self.chat_item_list
            },
            ..self
        }
    }

    /// The window after the transcript was scrolled up by one line.
    pub open spec fn scrolled_up(self) -> UIView {
        UIView {
            scroll_offset: if self.scroll_offset > 0 {
                (self.scroll_offset - 1) as u16
            } else {
                0
            },
            ..self
        }
    }

    /// The window after the transcript was scrolled down by one line, never
    /// past the height of the transcript.
    pub open spec fn scrolled_down(self) -> UIView {
        let next = if self.scroll_offset < u16::MAX {
            (self.scroll_offset + 1) as u16
        } else {
            self.scroll_offset
        };
        UIView {
            scroll_offset: if next <= self.chat_history_area_height {
                next
            } else {
                self.chat_history_area_height
            },
            ..self
        }
    }

    /// The window after the popup for the image path was asked for: it opens
    /// on the attached path, unless it is open already.
    pub open spec fn image_input_shown(self) -> UIView {
        if self.image_popup is None {
            UIView {
                image_popup: Some(
                    InputPopupView {
                        field: TextFieldView {
                            content: self.attached(),
                            cursor: self.attached().len(),
                        },
                        width: 50,
                        height: 3,
                    },
                ),
                ..self
            }
        } else {
            self
        }
    }

    /// The window after the title was opened for editing: the editor holds
    /// the title, unless it is open already.
    pub open spec fn title_opened(self) -> UIView {
        if self.title_editor is None {
            UIView {
                title_editor: Some(TextFieldView { content: self.title, cursor: self.title.len() }),
                ..self
            }
        } else {
            self
        }
    }

    /// The window after the edited title was saved: the text of the editor
    /// becomes the title and the editor closes.
    pub open spec fn title_saved(self) -> UIView {
        match self.title_editor {
            Some(editor) => UIView { title: editor.content, title_editor: None, ..self },
            None => self,
        }
    }

    /// The window after a new conversation was started: no transcript, no id,
    /// no title, nothing typed or attached, no reply awaited, no error shown,
    /// the client without history, and focus on the input line.
    pub open spec fn renewed(self) -> UIView {
        UIView {
            receiving_message: false,
            response_status: ResponseStatusView::Idle,
            gemini: match self.gemini {
                Some(client) => Some(restarted(client, Seq::empty())),
                None => None,
            },
            focus_component: MainFocusComponent::InputField,
            input: TextFieldView::blank(),
            image_path: None,
            title: Seq::empty(),
            conversation_id: Seq::empty(),
            chat_history: Seq::empty(),
            scroll_offset: 0,
            chat_history_area_height: 0,
            ..self
        }
    }
}

impl UIView {
    /// What the input line shows: the note that a reply is awaited, else the
    /// error of the last exchange, else the text that is typed.
    pub open spec fn input_line(self) -> InputLineView {
        if self.receiving_message {
            InputLineView::Receiving
        } else {
            match self.response_status {
                ResponseStatusView::Failed(message) => InputLineView::Failed(message),
                ResponseStatusView::Idle => InputLineView::Text(self.input.content),
            }
        }
    }

    /// The title that the header shows: the title of the conversation, or
    /// the name of the program where it has none.
    pub open spec fn header_title(self) -> Seq<char> {
        if self.title.len() == 0 {
            "Gemini Chat"@
        } else {
            self.title
        }
    }

    /// The title of the input line: it asks for the key until there is a
    /// client.
    pub open spec fn input_block_title(self) -> Seq<char> {
        if self.gemini is None {
            "Input Key"@
        } else {
            "Input Text"@
        }
    }

    /// The hint on the image path at the input line.
    pub open spec fn image_tip(self) -> Seq<char> {
        if self.attached().len() == 0 {
            "Press F4 Set Image Path"@
        } else {
            "["@ + self.attached() + "] Press F4 Modify Image Path"@
        }
    }
}

impl UIView {
    /// The window after the client was made from a key alone.
    pub open spec fn with_key(self, key: Seq<char>) -> UIView {
        UIView { gemini: Some(keyed(key)), ..self }
    }

    /// The window after the client was restored or made.
    ///
    /// A stored configuration wins: the client takes key, address and
    /// instruction from it and keeps its history; a window that had no client
    /// also takes the version of the tables from it. Without a stored
    /// configuration the client is made from the typed key, else from the key
    /// of the environment, and without any key nothing changes.
    pub open spec fn restored(
        self,
        config: Option<StoreDataView>,
        key: Option<Seq<char>>,
        env_key: Option<Seq<char>>,
    ) -> UIView {
        match config {
            Some(data) => UIView {
                gemini: Some(configured(self.gemini, data)),
                db_version: if self.gemini is None {
                    data.db_version
                } else {
                    self.db_version
                },
                ..self
            },
            None => match chosen_key(key, env_key) {
                Some(key) => self.with_key(key),
                None => self,
            },
        }
    }

    /// The configuration to store after the client was restored or made: the
    /// one of a client that was made from a key alone.
    pub open spec fn restored_config(
        config: Option<StoreDataView>,
        key: Option<Seq<char>>,
        env_key: Option<Seq<char>>,
    ) -> Option<StoreDataView> {
        match config {
            Some(_) => None,
            None => match chosen_key(key, env_key) {
                Some(key) => Some(keyed_config(key)),
                None => None,
            },
        }
    }

    /// Whether the settings window is on screen and the user has left it.
    pub open spec fn settings_left(self) -> bool {
        self.current_windows matches CurrentWindows::SettingWindow(setting) && setting.should_exit
    }

    /// The window after the settings were looked after: the main window
    /// comes back once the user has left the settings.
    pub open spec fn settings_closed(self) -> UIView {
        if self.settings_left() {
            UIView { current_windows: CurrentWindows::MainWindow, ..self }
        } else {
            self
        }
    }

    /// Whether the tables of the store are at another version than
    /// `current`; a missing version counts as the empty one.
    pub open spec fn migration_due(self, current: Seq<char>) -> bool {
        or_empty(self.db_version) != current
    }
}

/// The turn of the model that answers with `response` at `now`: its text is
/// the tidied response.
pub open spec fn bot_turn(response: Seq<char>, now: i64) -> ChatMessageView {
    ChatMessageView {
        status: DeliveryStatus::Success,
        sender: SenderView::Bot,
        message: normalized(response),
        date_time: now,
    }
}

impl UIView {
    /// Whether a message can be submitted: something is typed and no reply
    /// is awaited.
    pub open spec fn accepts_submit(self) -> bool {
        self.input.content.len() > 0 && !self.receiving_message
    }

    /// The turn that submitting at `now` adds to the transcript.
    pub open spec fn submitted_turn(self, now: i64) -> ChatMessageView {
        ChatMessageView {
            status: DeliveryStatus::Pending,
            sender: SenderView::User(self.attached()),
            message: self.input.content,
            date_time: now,
        }
    }

    /// The window after the input line was submitted at `now`.
    ///
    /// Nothing happens where nothing is typed or a reply is awaited. Without
    /// a client the text is taken for the key and only the input line is
    /// emptied. Otherwise the text becomes a pending turn of the user, the
    /// reply is awaited, and the attachment goes with the turn.
    pub open spec fn submitted(self, now: i64) -> UIView {
        if !self.accepts_submit() {
            self
        } else if self.gemini is None {
            UIView {
                input: TextFieldView::blank(),
                scroll_offset: self.chat_history_area_height,
                ..self
            }
        } else {
            UIView {
                receiving_message: true,
                chat_history: self.chat_history.push(self.submitted_turn(now)),
                image_path: if self.attached().len() > 0 {
                    None
                } else {
                    self.image_path
                },
                input: TextFieldView::blank(),
                scroll_offset: self.chat_history_area_height,
                ..self
            }
        }
    }

    /// What submitting asks of the program around the library.
    pub open spec fn submit_action(self) -> ActionView {
        if !self.accepts_submit() {
            ActionView::Nothing
        } else if self.gemini is None {
            ActionView::CreateClient { key: self.input.content }
        } else if self.attached().len() == 0 {
            ActionView::Send(ChatTypeView::Simple { message: self.input.content })
        } else {
            ActionView::Send(
                ChatTypeView::Image { message: self.input.content, image_path: self.attached() },
            )
        }
    }

    /// The id under which a finished exchange is stored: the id of the
    /// conversation, or the fresh one where it has none.
    pub open spec fn active_id(self, ids: FreshIdsView) -> Seq<char> {
        if self.conversation_id.len() == 0 {
            ids.conversation_id
        } else {
            self.conversation_id
        }
    }

    /// The pending turn of the user, marked as succeeded.
    pub open spec fn user_turn(self) -> ChatMessageView {
        self.chat_history.last().with_status(DeliveryStatus::Success)
    }

    /// The window after the backend answered the pending turn.
    ///
    /// An answer marks the turn as succeeded, gives the conversation an id
    /// if it has none, adds the tidied answer as a turn of the model, and
    /// notes that a title is asked for if there is none. An error marks the
    /// turn as failed and shows its message. Either way no reply is awaited
    /// any more. Where none was awaited, nothing happens.
    pub open spec fn completed(
        self,
        reply: Result<Seq<char>, Seq<char>>,
        encoded: Option<EncodedImageView>,
        ids: FreshIdsView,
        now: i64,
    ) -> UIView {
        if !self.receiving_message {
            self
        } else {
            match reply {
                Ok(response) => UIView {
                    receiving_message: false,
                    conversation_id: self.active_id(ids),
                    chat_item_list: if self.conversation_id.len() == 0
                        && self.chat_item_list.selected_conversation < usize::MAX {
                        ChatItemListScrollProps {
                            selected_conversation: (self.chat_item_list.selected_conversation
                                + 1) as usize,
                            ..self.chat_item_list
                        }
                    } else {
                        self.chat_item_list
                    },
                    gen_title_ing: self.gen_title_ing || self.title.len() == 0,
                    gemini: match self.gemini {
                        Some(client) => Some(exchanged(client, self.user_turn(), encoded, response)),
                        None => None,
                    },
                    chat_history: self.chat_history.drop_last().push(self.user_turn()).push(
                        bot_turn(response, now),
                    ),
                    ..self
                },
                Err(message) => UIView {
                    receiving_message: false,
                    response_status: ResponseStatusView::Failed(message),
                    chat_history: self.chat_history.drop_last().push(
                        self.chat_history.last().with_status(DeliveryStatus::Failed),
                    ),
                    ..self
                },
            }
        }
    }

    /// What the completion asks of the program around the library: a title,
    /// where an answer came, the conversation has no title and none is asked
    /// for yet.
    pub open spec fn complete_action(self, reply: Result<Seq<char>, Seq<char>>) -> ActionView {
        if self.receiving_message && reply is Ok && self.gemini is Some && self.title.len() == 0
            && !self.gen_title_ing {
            ActionView::Summarize { key: self.gemini->0.key, text: reply->Ok_0 }
        } else {
            ActionView::Nothing
        }
    }

    /// The store after the completion: an answer stores the turn of the user
    /// and then the turn of the model; an error stores nothing.
    pub open spec fn persisted(
        self,
        store: StoreView,
        reply: Result<Seq<char>, Seq<char>>,
        encoded: Option<EncodedImageView>,
        ids: FreshIdsView,
        now: i64,
    ) -> StoreView {
        if self.receiving_message && reply is Ok && store.ready {
            store.saved(
                self.active_id(ids),
                self.title,
                self.user_turn(),
                ids.user_record_id,
                ids.user_image_record_id,
                encoded,
            ).saved(
                self.active_id(ids),
                self.title,
                bot_turn(reply->Ok_0, now),
                ids.bot_record_id,
                ids.bot_image_record_id,
                None,
            )
        } else {
            store
        }
    }

    /// The window after a title arrived: it becomes the title, and none is
    /// asked for any more. The empty title stands for a request that failed:
    /// it leaves the title as it is, so that the next exchange may ask again.
    pub open spec fn titled(self, title: Seq<char>) -> UIView {
        if title.len() == 0 {
            UIView { gen_title_ing: false, ..self }
        } else {
            UIView { gen_title_ing: false, title, ..self }
        }
    }

    /// The store after a title arrived: the conversation gets the title,
    /// unless it is the empty one.
    pub open spec fn titled_store(self, store: StoreView, title: Seq<char>) -> StoreView {
        if store.ready && title.len() > 0 {
            store.renamed(self.conversation_id, title)
        } else {
            store
        }
    }
}

impl UIView {
    /// The window with another place of the list selected.
    pub open spec fn selecting(self, place: usize) -> UIView {
        UIView {
            chat_item_list: ChatItemListScrollProps {
                selected_conversation: place,
                ..self.chat_item_list
            },
            ..self
        }
    }

    /// The place below the selected one, where the list of the store's
    /// conversations has one; else the selected place.
    pub open spec fn selection_below(self, store: StoreView) -> usize {
        if store.ready && self.chat_item_list.selected_conversation + 1
            < store.conversations.len() {
            (self.chat_item_list.selected_conversation + 1) as usize
        } else {
            self.chat_item_list.selected_conversation
        }
    }

    /// The id of the conversation that the list shows at the selected place.
    pub open spec fn deleted_id(self, store: StoreView) -> Option<Seq<char>> {
        match store.shown_at(self.chat_item_list.selected_conversation as int) {
            Some(summary) => Some(summary.conversation_id),
            None => None,
        }
    }

    /// The window after the conversation at the selected place was deleted.
    pub open spec fn item_deleted(self, store: StoreView) -> UIView {
        match self.deleted_id(store) {
            Some(id) => self.selecting(
                self.selection_after_delete(store.conversations.len() as int),
            ).after_delete(id),
            None => self,
        }
    }
}

impl UIView {
    /// The window after a stored conversation was loaded.
    ///
    /// It takes id and title of the conversation; the transcript shows its
    /// records as succeeded turns; the client is built anew with the history
    /// of the records; nothing is typed or attached; focus is on the
    /// transcript. While a reply is awaited, nothing is loaded.
    pub open spec fn switched(self, conversation: ConversationView, lookups: Seq<ImageLookupView>) -> UIView {
        if self.receiving_message {
            self
        } else {
            UIView {
                conversation_id: conversation.conversation_id,
                title: conversation.conversation_title,
                gemini: match self.gemini {
                    Some(client) => Some(
                        restarted(client, history_of(conversation.conversation_records, lookups)),
                    ),
                    None => None,
                },
                chat_history: conversation.turns(),
                focus_component: MainFocusComponent::ChatShow,
                input: TextFieldView::blank(),
                image_path: None,
                ..self
            }
        }
    }

    /// The window after a conversation was deleted from the store: a new
    /// conversation starts where the deleted one was the active one.
    pub open spec fn after_delete(self, id: Seq<char>) -> UIView {
        if id == self.conversation_id {
            self.renewed()
        } else {
            self
        }
    }

    /// The place that is selected after the conversation shown at the
    /// selected place of a list of `count` conversations was deleted: the
    /// same place, or the last one where the list got too short.
    pub open spec fn selection_after_delete(self, count: int) -> usize {
        if self.chat_item_list.selected_conversation + 1 >= count
            && self.chat_item_list.selected_conversation > 0 {
            (self.chat_item_list.selected_conversation - 1) as usize
        } else {
            self.chat_item_list.selected_conversation
        }
    }
}

impl UIView {
    /// The window after the user asked to leave the program.
    pub open spec fn leaving(self) -> UIView {
        UIView { should_exit: true, ..self }
    }

    /// The window with the settings window opened.
    pub open spec fn settings_opened(self) -> UIView {
        UIView {
            current_windows: CurrentWindows::SettingWindow(
                SettingUI { should_exit: false, update: false },
            ),
            ..self
        }
    }

    /// The store after the edited title was saved: the conversation, where it
    /// has an id, gets the title of the editor.
    pub open spec fn title_saved_store(self, store: StoreView) -> StoreView {
        if self.title_editor is Some && store.ready && self.conversation_id.len() > 0 {
            store.renamed(self.conversation_id, self.title_editor->0.content)
        } else {
            store
        }
    }

    /// The window after a key press while the title is edited: the keys that
    /// edit the title save it, Esc asks to leave, and every other key goes to
    /// the editor.
    pub open spec fn title_edit_key(self, key: KeyEvent) -> UIView {
        if key.edits_title() {
            self.title_saved()
        } else if key.code is Esc {
            self.leaving()
        } else {
            match self.title_editor {
                Some(editor) => UIView { title_editor: Some(editor.edited(key.code)), ..self },
                None => self,
            }
        }
    }

    /// The window after a key press in the popup for the image path: a
    /// committed text becomes the attached path, and commit and cancel both
    /// close the popup.
    pub open spec fn image_popup_key(self, key: KeyEvent) -> UIView {
        match self.image_popup {
            Some(popup) => match popup.outcome(key.code) {
                InputPopupHandleEventView::Save(text) => UIView {
                    image_popup: None,
                    image_path: Some(text),
                    ..self
                },
                InputPopupHandleEventView::Cancel => UIView { image_popup: None, ..self },
                InputPopupHandleEventView::Nothing => UIView {
                    image_popup: Some(popup.after_key(key.code)),
                    ..self
                },
            },
            None => self,
        }
    }

    /// The window without the error of the last exchange, which every key
    /// but Tab wipes off the input line.
    pub open spec fn without_status(self, key: KeyEvent) -> UIView {
        if key.code != KeyCode::Tab {
            UIView { response_status: ResponseStatusView::Idle, ..self }
        } else {
            self
        }
    }

    /// The window after a key press in the input line at `now`.
    pub open spec fn input_common_key(self, key: KeyEvent, now: i64) -> UIView {
        let cleared = self.without_status(key);
        if key.toggles_sidebar() {
            cleared.sidebar_toggled()
        } else if key.asks_image_path() {
            cleared.image_input_shown()
        } else if key.edits_title() {
            cleared.title_opened()
        } else {
            match key.code {
                KeyCode::Esc => cleared.leaving(),
                KeyCode::Tab => cleared.advanced(),
                KeyCode::Enter => cleared.submitted(now),
                code => UIView { input: cleared.input.edited(code), ..cleared },
            }
        }
    }

    /// What a key press in the input line asks of the program around the
    /// library: Enter submits.
    pub open spec fn input_common_action(self, key: KeyEvent) -> ActionView {
        if !key.toggles_sidebar() && !key.asks_image_path() && !key.edits_title()
            && key.code is Enter {
            self.submit_action()
        } else {
            ActionView::Nothing
        }
    }

    /// The window after a key press with focus on the input line: the popup
    /// for the image path takes the key while it is open.
    pub open spec fn input_key(self, key: KeyEvent, now: i64) -> UIView {
        if self.image_popup is Some {
            self.image_popup_key(key)
        } else {
            self.input_common_key(key, now)
        }
    }

    /// What a key press with focus on the input line asks for.
    pub open spec fn input_action(self, key: KeyEvent) -> ActionView {
        if self.image_popup is Some {
            ActionView::Nothing
        } else {
            self.input_common_action(key)
        }
    }

    /// The window after a key press on the button for a new conversation.
    pub open spec fn new_chat_key(self, key: KeyEvent) -> UIView {
        if key.toggles_sidebar() {
            self.sidebar_toggled()
        } else {
            match key.code {
                KeyCode::Esc => self.leaving(),
                KeyCode::Tab => self.advanced(),
                KeyCode::Enter => self.renewed(),
                _ => self,
            }
        }
    }

    /// The window after a key press on the button for the settings.
    pub open spec fn setting_button_key(self, key: KeyEvent) -> UIView {
        if key.toggles_sidebar() {
            self.sidebar_toggled()
        } else {
            match key.code {
                KeyCode::Esc => self.leaving(),
                KeyCode::Tab => self.advanced(),
                KeyCode::Enter => self.settings_opened(),
                _ => self,
            }
        }
    }

    /// The window after a key press on the transcript.
    pub open spec fn chat_show_key(self, key: KeyEvent) -> UIView {
        if key.toggles_sidebar() {
            self.sidebar_toggled()
        } else if key.edits_title() {
            self.title_opened()
        } else {
            match key.code {
                KeyCode::Esc => self.leaving(),
                KeyCode::Tab => self.advanced(),
                KeyCode::Up => self.scrolled_up(),
                KeyCode::Down => self.scrolled_down(),
                _ => self,
            }
        }
    }

    /// The window with the dialog that confirms a deletion set to `popup`.
    pub open spec fn with_delete_popup(self, popup: Option<DeletePopup>) -> UIView {
        UIView {
            chat_item_list: ChatItemListScrollProps {
                popup_delete_confirm_dialog: popup,
                ..self.chat_item_list
            },
            ..self
        }
    }

    /// Whether a key press closes the open dialog with the deletion
    /// confirmed.
    pub open spec fn confirms_delete(self, key: KeyEvent) -> bool {
        self.chat_item_list.popup_delete_confirm_dialog is Some && key.code is Enter
            && self.chat_item_list.popup_delete_confirm_dialog->0.selected
            == crate::popup::DeleteButton::Confirm
    }

    /// The window after a key press on the list of conversations.
    ///
    /// While the dialog is open it takes every key: Tab selects its other
    /// button, Enter presses the selected one and closes it, and a
    /// confirmed deletion deletes the selected conversation. Without the
    /// dialog, Up and Down move the selection, Delete opens the dialog, and
    /// Enter asks for the selected conversation to be loaded.
    pub open spec fn chat_list_key(self, key: KeyEvent, store: StoreView) -> UIView {
        match self.chat_item_list.popup_delete_confirm_dialog {
            Some(popup) => match key.code {
                KeyCode::Tab => self.with_delete_popup(
                    Some(DeletePopup { selected: DeletePopup::other(popup.selected), ..popup }),
                ),
                KeyCode::Enter => if self.confirms_delete(key) {
                    self.with_delete_popup(None).item_deleted(store)
                } else {
                    self.with_delete_popup(None)
                },
                _ => self,
            },
            None => if key.toggles_sidebar() {
                self.sidebar_toggled()
            } else {
                match key.code {
                    KeyCode::Esc => self.leaving(),
                    KeyCode::Up => self.selecting(
                        if self.chat_item_list.selected_conversation > 0 {
                            (self.chat_item_list.selected_conversation - 1) as usize
                        } else {
                            0
                        },
                    ),
                    KeyCode::Down => self.selecting(self.selection_below(store)),
                    KeyCode::Delete => self.with_delete_popup(
                        Some(
                            DeletePopup {
                                selected: crate::popup::DeleteButton::Cancel,
                                width: 40,
                                height: 5,
                            },
                        ),
                    ),
                    KeyCode::Tab => self.advanced(),
                    _ => self,
                }
            },
        }
    }

    /// The store after a key press on the list of conversations: a confirmed
    /// deletion removes the selected conversation.
    pub open spec fn chat_list_store(self, key: KeyEvent, store: StoreView) -> StoreView {
        if self.confirms_delete(key) {
            match self.deleted_id(store) {
                Some(id) => store.removed(id),
                None => store,
            }
        } else {
            store
        }
    }

    /// What a key press on the list of conversations asks for: Enter, without
    /// the dialog, asks for the selected conversation to be loaded.
    pub open spec fn chat_list_action(self, key: KeyEvent, store: StoreView) -> ActionView {
        if self.chat_item_list.popup_delete_confirm_dialog is None && !key.toggles_sidebar()
            && key.code is Enter {
            match store.shown_at(self.chat_item_list.selected_conversation as int) {
                Some(summary) => ActionView::Load(
                    ConversationView {
                        conversation_records: store.records_of(summary.conversation_id),
                        ..summary
                    },
                ),
                None => ActionView::Nothing,
            }
        } else {
            ActionView::Nothing
        }
    }

    /// Whether the main window takes key presses: it is on screen, no reply
    /// is awaited, and the event is a press.
    pub open spec fn takes_key(self, key: KeyEvent) -> bool {
        !self.receiving_message && key.pressed && self.current_windows
            == CurrentWindows::MainWindow
    }

    /// The window after a key event at `now`.
    ///
    /// The editor of the title, the dialog that confirms a deletion and the
    /// popup for the image path take the key before the component in focus,
    /// in this order.
    pub open spec fn after_key(self, key: KeyEvent, store: StoreView, now: i64) -> UIView {
        if !self.takes_key(key) {
            self
        } else if self.title_editor is Some {
            self.title_edit_key(key)
        } else if self.chat_item_list.popup_delete_confirm_dialog is Some {
            self.chat_list_key(key, store)
        } else if self.image_popup is Some {
            self.image_popup_key(key)
        } else {
            match self.focus_component {
                MainFocusComponent::InputField => self.input_common_key(key, now),
                MainFocusComponent::NewChatButton => self.new_chat_key(key),
                MainFocusComponent::ChatItemList => self.chat_list_key(key, store),
                MainFocusComponent::SettingButton => self.setting_button_key(key),
                MainFocusComponent::ChatShow => self.chat_show_key(key),
            }
        }
    }

    /// The store after a key event: saving the title renames the
    /// conversation, and a confirmed deletion removes one.
    pub open spec fn key_store(self, key: KeyEvent, store: StoreView) -> StoreView {
        if !self.takes_key(key) {
            store
        } else if self.title_editor is Some {
            if key.edits_title() {
                self.title_saved_store(store)
            } else {
                store
            }
        } else if self.chat_item_list.popup_delete_confirm_dialog is Some
            || self.image_popup is None && self.focus_component
            == MainFocusComponent::ChatItemList {
            self.chat_list_store(key, store)
        } else {
            store
        }
    }

    /// What a key event asks of the program around the library.
    pub open spec fn key_action(self, key: KeyEvent, store: StoreView) -> ActionView {
        if !self.takes_key(key) || self.title_editor is Some
            || self.chat_item_list.popup_delete_confirm_dialog is Some || self.image_popup is Some {
            ActionView::Nothing
        } else {
            match self.focus_component {
                MainFocusComponent::InputField => self.input_common_action(key),
                MainFocusComponent::ChatItemList => self.chat_list_action(key, store),
                _ => ActionView::Nothing,
            }
        }
    }
}

impl UIView {
    /// The window after an event, with `ids` at hand for a reply and at the
    /// time `now`.
    pub open spec fn after_event(
        self,
        event: EventView,
        store: StoreView,
        ids: FreshIdsView,
        now: i64,
    ) -> UIView {
        match event {
            EventView::Title(title) => self.titled(title),
            EventView::Reply { reply, encoded } => self.completed(reply, encoded, ids, now),
            EventView::Key(key) => self.after_key(key, store, now),
        }
    }

    /// The store after an event.
    pub open spec fn event_store(
        self,
        event: EventView,
        store: StoreView,
        ids: FreshIdsView,
        now: i64,
    ) -> StoreView {
        match event {
            EventView::Title(title) => self.titled_store(store, title),
            EventView::Reply { reply, encoded } => self.persisted(store, reply, encoded, ids, now),
            EventView::Key(key) => self.key_store(key, store),
        }
    }

    /// What an event asks of the program around the library.
    pub open spec fn event_action(self, event: EventView, store: StoreView) -> ActionView {
        match event {
            EventView::Title(_) => ActionView::Nothing,
            EventView::Reply { reply, encoded } => self.complete_action(reply),
            EventView::Key(key) => self.key_action(key, store),
        }
    }

    /// The window after the tables of the store were looked after: where
    /// they were due to be brought to the version `current`, the window
    /// notes that version.
    pub open spec fn store_prepared(self, current: Seq<char>) -> UIView {
        if self.migration_due(current) {
            UIView { db_version: Some(current), ..self }
        } else {
            self
        }
    }
}

/// In a well-formed window at most one turn waits for its reply.
pub proof fn lemma_one_pending_at_most(ui: UIView)
    requires
        ui.wf(),
    ensures
        pending_count(ui.chat_history) <= 1,
        pending_count(ui.chat_history) == 1 <==> ui.receiving_message,
{
    if ui.chat_history.len() > 0 {
        let before = ui.chat_history.drop_last();
        assert forall|i: int| 0 <= i < before.len() implies (#[trigger] before[i]).status
            != DeliveryStatus::Pending by {
            assert(before[i] == ui.chat_history[i]);
        }
        lemma_settled_counts_zero(before);
    }
}

} // verus!
