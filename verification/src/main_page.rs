//! The main window: the active conversation and everything the keyboard can
//! do to it.
//!
//! [`UI`] owns the transcript, the identity of the conversation and the state
//! of the widgets. Key presses and the results of the backend go in; actions
//! for the program around the library come out. What each call does is said
//! over [`UIView`], whose rules stand in [`crate::session`].

use vstd::prelude::*;
use crate::config::{config_view, keyed_config, StoreData};
use crate::db_utils::{
    create_table, delete_one, generate_unique_id, is_generated_id, modify_title, query_detail_by_id,
    save_conversation_with, ConversationStore,
};
use crate::focus::MainFocusComponent;
use crate::history::{
    history_of, lookup_at, paragraph_of, record_paragraph, refreshes_of, restart, user_paragraph,
    CacheRequest, ImageLookup, ImageLookupView,
};
use crate::input::{TextField, TextFieldView};
use crate::key::{KeyCode, KeyEvent};
use crate::language_model::{reply_view, Content, Gemini, GeminiView, Role};
use crate::message::{has_success, lemma_views_push, views, ChatMessage, DeliveryStatus, Sender};
use crate::popup::{DeletePopup, InputPopup, InputPopupHandleEvent, InputPopupView};
use crate::record::{
    conversation_view, encoded_view, Conversation, ConversationView, EncodedImage, EncodedImageView,
};
use crate::session::UIView;
use crate::text::{
    copy_of, copy_of_option, is_blank, joined, normalize_response, same_text, text_view,
};

verus! {

/// The outcome of the last exchange, as the input line shows it.
#[derive(Debug, PartialEq, Eq)]
pub enum ResponseStatus {
    /// Nothing to report.
    Idle,
    /// The backend reported an error with this message.
    Failed(String),
}

/// A [`ResponseStatus`] with its text as a sequence of characters.
pub enum ResponseStatusView {
    Idle,
    Failed(Seq<char>),
}

impl View for ResponseStatus {
    type V = ResponseStatusView;

    open spec fn view(&self) -> ResponseStatusView {
        match self {
            ResponseStatus::Idle => ResponseStatusView::Idle,
            ResponseStatus::Failed(message) => ResponseStatusView::Failed(message@),
        }
    }
}

impl Default for ResponseStatus {
    fn default() -> (status: ResponseStatus)
        ensures
            status@ == ResponseStatusView::Idle,
    {
        ResponseStatus::Idle
    }
}

/// The settings window, as far as the main window looks into it.
#[derive(Clone, Copy, PartialEq, Eq, Structural, Debug)]
pub struct SettingUI {
    /// Whether the user has left the settings.
    pub should_exit: bool,
    /// Whether the user has changed a setting.
    pub update: bool,
}

impl SettingUI {
    /// The settings window as it opens.
    pub fn new() -> (setting: SettingUI)
        ensures
            setting == (SettingUI { should_exit: false, update: false }),
    {
        SettingUI { should_exit: false, update: false }
    }
}

/// The window that is on screen.
#[derive(Clone, Copy, PartialEq, Eq, Structural, Debug)]
pub enum CurrentWindows {
    MainWindow,
    SettingWindow(SettingUI),
}

impl Default for CurrentWindows {
    fn default() -> (window: CurrentWindows)
        ensures
            window == CurrentWindows::MainWindow,
    {
        CurrentWindows::MainWindow
    }
}

/// A message on its way to the backend.
#[derive(Debug, PartialEq, Eq)]
pub enum ChatType {
    /// Text alone.
    Simple { message: String },
    /// Text with the image at a path.
    Image { message: String, image_path: String },
}

/// A [`ChatType`] with its texts as sequences of characters.
pub enum ChatTypeView {
    Simple { message: Seq<char> },
    Image { message: Seq<char>, image_path: Seq<char> },
}

impl View for ChatType {
    type V = ChatTypeView;

    open spec fn view(&self) -> ChatTypeView {
        match self {
            ChatType::Simple { message } => ChatTypeView::Simple { message: message@ },
            ChatType::Image { message, image_path } => ChatTypeView::Image {
                message: message@,
                image_path: image_path@,
            },
        }
    }
}

/// What the program around the library has to do after a call.
#[derive(Debug, PartialEq, Eq)]
pub enum Action {
    /// Nothing.
    Nothing,
    /// Read the stored configuration and the environment and hand them, with
    /// this key, to [`UI::restore_or_new_gemini`].
    CreateClient { key: String },
    /// Send the message to the backend and hand the reply to
    /// [`UI::complete`].
    Send(ChatType),
    /// Ask the backend for a title of `text` with [`crate::language_model::summary_by_gemini`]
    /// and hand the title to [`UI::title_ready`].
    Summarize { key: String, text: String },
    /// Look up the images of the conversation and hand both to
    /// [`UI::switch_to`].
    Load(Conversation),
}

/// An [`Action`] with its texts as sequences of characters.
pub enum ActionView {
    Nothing,
    CreateClient { key: Seq<char> },
    Send(ChatTypeView),
    Summarize { key: Seq<char>, text: Seq<char> },
    Load(ConversationView),
}

impl View for Action {
    type V = ActionView;

    open spec fn view(&self) -> ActionView {
        match self {
            Action::Nothing => ActionView::Nothing,
            Action::CreateClient { key } => ActionView::CreateClient { key: key@ },
            Action::Send(chat) => ActionView::Send(chat@),
            Action::Summarize { key, text } => ActionView::Summarize { key: key@, text: text@ },
            Action::Load(conversation) => ActionView::Load(conversation@),
        }
    }
}

/// What can happen to the main window between two drawings.
#[derive(Debug, PartialEq, Eq)]
pub enum Event {
    /// A title arrived from the backend; the empty title stands for a
    /// request that failed.
    Title(String),
    /// The backend replied to the pending turn; `encoded` is the image that
    /// went with the turn, if one did.
    Reply { reply: Result<String, String>, encoded: Option<EncodedImage> },
    /// A key event arrived from the terminal.
    Key(KeyEvent),
}

/// An [`Event`] with its texts as sequences of characters.
pub enum EventView {
    Title(Seq<char>),
    Reply { reply: Result<Seq<char>, Seq<char>>, encoded: Option<EncodedImageView> },
    Key(KeyEvent),
}

impl View for Event {
    type V = EventView;

    open spec fn view(&self) -> EventView {
        match self {
            Event::Title(title) => EventView::Title(title@),
            Event::Reply { reply, encoded } => EventView::Reply {
                reply: reply_view(*reply),
                encoded: encoded_view(*encoded),
            },
            Event::Key(key) => EventView::Key(*key),
        }
    }
}

/// The ids that the completion of an exchange may use.
#[derive(Debug, PartialEq, Eq)]
pub struct FreshIds {
    /// For the conversation, if it has none yet.
    pub conversation_id: String,
    /// For the record of the user's turn and for its image.
    pub user_record_id: String,
    pub user_image_record_id: String,
    /// For the record of the model's turn and for its image.
    pub bot_record_id: String,
    pub bot_image_record_id: String,
}

/// [`FreshIds`] as sequences of characters.
pub struct FreshIdsView {
    pub conversation_id: Seq<char>,
    pub user_record_id: Seq<char>,
    pub user_image_record_id: Seq<char>,
    pub bot_record_id: Seq<char>,
    pub bot_image_record_id: Seq<char>,
}

impl View for FreshIds {
    type V = FreshIdsView;

    open spec fn view(&self) -> FreshIdsView {
        FreshIdsView {
            conversation_id: self.conversation_id@,
            user_record_id: self.user_record_id@,
            user_image_record_id: self.user_image_record_id@,
            bot_record_id: self.bot_record_id@,
            bot_image_record_id: self.bot_image_record_id@,
        }
    }
}

impl FreshIds {
    /// Five ids, each generated on its own.
    pub fn generate() -> (ids: FreshIds)
        ensures
            ids@.generated(),
    {
        FreshIds {
            conversation_id: generate_unique_id(),
            user_record_id: generate_unique_id(),
            user_image_record_id: generate_unique_id(),
            bot_record_id: generate_unique_id(),
            bot_image_record_id: generate_unique_id(),
        }
    }
}

impl FreshIdsView {
    /// Whether every id has the shape of a generated id.
    pub open spec fn generated(self) -> bool {
        &&& is_generated_id(self.conversation_id)
        &&& is_generated_id(self.user_record_id)
        &&& is_generated_id(self.user_image_record_id)
        &&& is_generated_id(self.bot_record_id)
        &&& is_generated_id(self.bot_image_record_id)
    }
}

/// The text of a line that is edited, and the number of characters before
/// its cursor.
#[derive(Debug, PartialEq, Eq)]
pub struct FieldText {
    pub text: String,
    pub cursor: usize,
}

/// What the input line shows.
#[derive(Debug, PartialEq, Eq)]
pub enum InputLine {
    /// The note that a reply is awaited.
    Receiving,
    /// The message of the error that the backend reported.
    Failed(String),
    /// The text that is typed.
    Text(String),
}

/// An [`InputLine`] with its text as a sequence of characters.
pub enum InputLineView {
    Receiving,
    Failed(Seq<char>),
    Text(Seq<char>),
}

impl View for InputLine {
    type V = InputLineView;

    open spec fn view(&self) -> InputLineView {
        match self {
            InputLine::Receiving => InputLineView::Receiving,
            InputLine::Failed(message) => InputLineView::Failed(message@),
            InputLine::Text(text) => InputLineView::Text(text@),
        }
    }
}

/// The state of the list of stored conversations in the sidebar. The list
/// shows the conversations of the store, the newest first.
#[derive(Clone, Copy, PartialEq, Eq, Structural, Debug)]
pub struct ChatItemListScrollProps {
    /// Whether the sidebar is on screen.
    pub show: bool,
    /// The place of the selected conversation in the list.
    pub selected_conversation: usize,
    /// The dialog that confirms a deletion, while it is open.
    pub popup_delete_confirm_dialog: Option<DeletePopup>,
}

impl Default for ChatItemListScrollProps {
    fn default() -> (list: ChatItemListScrollProps)
        ensures
            list == (ChatItemListScrollProps {
                show: true,
                selected_conversation: 0,
                popup_delete_confirm_dialog: None,
            }),
    {
        ChatItemListScrollProps {
            show: true,
            selected_conversation: 0,
            popup_delete_confirm_dialog: None,
        }
    }
}

/// The transcript and how far it is scrolled.
#[derive(Debug, PartialEq, Eq)]
pub struct ChatShowScrollProps {
    pub chat_history: Vec<ChatMessage>,
    pub scroll_offset: u16,
    /// The height of the transcript as it was last drawn.
    pub chat_history_area_height: u16,
}

impl Default for ChatShowScrollProps {
    fn default() -> (show: ChatShowScrollProps)
        ensures
            show.chat_history@.len() == 0,
            show.scroll_offset == 0,
            show.chat_history_area_height == 0,
    {
        ChatShowScrollProps {
            chat_history: Vec::new(),
            scroll_offset: 0,
            chat_history_area_height: 0,
        }
    }
}

/// The view of a text field that may be missing.
pub open spec fn field_view(field: Option<TextField>) -> Option<TextFieldView> {
    match field {
        Some(field) => Some(field@),
        None => None,
    }
}

/// The view of a path popup that may be missing.
pub open spec fn popup_view(popup: Option<InputPopup>) -> Option<InputPopupView> {
    match popup {
        Some(popup) => Some(popup@),
        None => None,
    }
}

/// The view of a client that may be missing.
pub open spec fn client_view(client: Option<Gemini>) -> Option<GeminiView> {
    match client {
        Some(client) => Some(client@),
        None => None,
    }
}

/// The main window.
#[derive(Debug, PartialEq, Eq)]
pub struct UI {
    receiving_message: bool,
    response_status: ResponseStatus,
    should_exit: bool,
    gemini: Option<Gemini>,
    focus_component: MainFocusComponent,
    input_field_component: TextField,
    current_windows: CurrentWindows,
    image_path: Option<String>,
    title: String,
    conversation_id: String,
    gen_title_ing: bool,
    db_version: Option<String>,
    title_editor_input_field: Option<TextField>,
    image_url_input_popup: Option<InputPopup>,
    chat_item_list: ChatItemListScrollProps,
    chat_show: ChatShowScrollProps,
}

impl View for UI {
    type V = UIView;

    closed spec fn view(&self) -> UIView {
        UIView {
            receiving_message: self.receiving_message,
            response_status: self.response_status@,
            should_exit: self.should_exit,
            gemini: client_view(self.gemini),
            focus_component: self.focus_component,
            input: self.input_field_component@,
            current_windows: self.current_windows,
            image_path: text_view(self.image_path),
            title: self.title@,
            conversation_id: self.conversation_id@,
            gen_title_ing: self.gen_title_ing,
            db_version: text_view(self.db_version),
            title_editor: field_view(self.title_editor_input_field),
            image_popup: popup_view(self.image_url_input_popup),
            chat_item_list: self.chat_item_list,
            chat_history: views(self.chat_show.chat_history@),
            scroll_offset: self.chat_show.scroll_offset,
            chat_history_area_height: self.chat_show.chat_history_area_height,
        }
    }
}

impl UI {
    /// Whether the window keeps its invariant.
    pub open spec fn wf(&self) -> bool {
        self@.wf()
    }

    /// The window as the program starts.
    pub fn new() -> (ui: UI)
        ensures
            ui.wf(),
            ui@ == UIView::initial(),
            ui@.id_tells_success(),
    {
        let ui = UI {
            receiving_message: false,
            response_status: ResponseStatus::Idle,
            should_exit: false,
            gemini: None,
            focus_component: MainFocusComponent::InputField,
            input_field_component: TextField::new(String::new()),
            current_windows: CurrentWindows::MainWindow,
            image_path: None,
            title: String::new(),
            conversation_id: String::new(),
            gen_title_ing: false,
            db_version: None,
            title_editor_input_field: None,
            image_url_input_popup: None,
            chat_item_list: ChatItemListScrollProps::default(),
            chat_show: ChatShowScrollProps::default(),
        };
        assert(ui@.chat_history =~= Seq::empty());
        assert(ui@.input == TextFieldView::blank());
        ui
    }

    /// Whether the user has asked to leave the program.
    pub fn should_exit(&self) -> (leave: bool)
        ensures
            leave == self@.should_exit,
    {
        self.should_exit
    }

    /// Whether a reply of the backend is awaited.
    pub fn receiving_message(&self) -> (receiving: bool)
        ensures
            receiving == self@.receiving_message,
    {
        self.receiving_message
    }

    /// The component that owns the keyboard.
    pub fn focus_component(&self) -> (focus: MainFocusComponent)
        ensures
            focus == self@.focus_component,
    {
        self.focus_component
    }

    /// The window on screen.
    pub fn current_windows(&self) -> (window: CurrentWindows)
        ensures
            window == self@.current_windows,
    {
        self.current_windows
    }

    /// The title of the conversation.
    pub fn title(&self) -> (title: String)
        ensures
            title@ == self@.title,
    {
        copy_of(&self.title)
    }

    /// The id of the conversation.
    pub fn conversation_id(&self) -> (id: String)
        ensures
            id@ == self@.conversation_id,
    {
        copy_of(&self.conversation_id)
    }

    /// Whether a title has been asked for and not yet arrived.
    pub fn gen_title_ing(&self) -> (waiting: bool)
        ensures
            waiting == self@.gen_title_ing,
    {
        self.gen_title_ing
    }

    /// The path of the image that goes with the next message.
    pub fn image_path(&self) -> (path: Option<String>)
        ensures
            text_view(path) == self@.image_path,
    {
        copy_of_option(&self.image_path)
    }

    /// The message of the error that the backend reported last, if it is
    /// still shown.
    pub fn error_message(&self) -> (message: Option<String>)
        ensures
            text_view(message) == match self@.response_status {
                ResponseStatusView::Failed(text) => Some(text),
                ResponseStatusView::Idle => None,
            },
    {
        match &self.response_status {
            ResponseStatus::Failed(text) => Some(copy_of(text)),
            ResponseStatus::Idle => None,
        }
    }

    /// The text of the input line.
    pub fn input(&self) -> (text: String)
        ensures
            text@ == self@.input.content,
    {
        self.input_field_component.get_content()
    }

    /// The place of the cursor in the input line.
    pub fn input_cursor(&self) -> (cursor: usize)
        ensures
            cursor == self@.input.cursor,
    {
        self.input_field_component.cursor()
    }

    /// The sidebar and its list.
    pub fn chat_item_list(&self) -> (list: ChatItemListScrollProps)
        ensures
            list == self@.chat_item_list,
    {
        self.chat_item_list
    }

    /// The client of the backend, once there is one.
    pub fn gemini(&self) -> (client: Option<Gemini>)
        ensures
            client_view(client) == self@.gemini,
    {
        match &self.gemini {
            Some(client) => Some(client.clone()),
            None => None,
        }
    }

    /// The transcript.
    pub fn chat_history(&self) -> (turns: Vec<ChatMessage>)
        ensures
            views(turns@) == self@.chat_history,
    {
        let mut turns: Vec<ChatMessage> = Vec::new();
        let mut i: usize = 0;
        while i < self.chat_show.chat_history.len()
            invariant
                i <= self.chat_show.chat_history.len(),
                views(turns@) == self@.chat_history.take(i as int),
            decreases self.chat_show.chat_history.len() - i,
        {
            let turn = self.chat_show.chat_history[i].clone();
            proof {
                lemma_views_push(turns@, turn);
                assert(self@.chat_history.take(i + 1) == self@.chat_history.take(i as int).push(
                    self@.chat_history[i as int],
                ));
            }
            turns.push(turn);
            i = i + 1;
        }
        assert(self@.chat_history.take(i as int) == self@.chat_history);
        turns
    }

    /// How far the transcript is scrolled.
    pub fn scroll_offset(&self) -> (offset: u16)
        ensures
            offset == self@.scroll_offset,
    {
        self.chat_show.scroll_offset
    }

    /// How far down the transcript can be scrolled.
    pub fn max_scroll_offset(&self) -> (offset: u16)
        ensures
            offset == self@.chat_history_area_height,
    {
        self.chat_show.chat_history_area_height
    }

    /// Whether no image is attached.
    pub fn blank_image(&self) -> (blank: bool)
        ensures
            blank == (self@.attached().len() == 0),
    {
        match &self.image_path {
            Some(path) => is_blank(path),
            None => true,
        }
    }

    /// The text and the cursor of the editor of the title, while it is open.
    pub fn title_editor(&self) -> (editor: Option<FieldText>)
        ensures
            editor is Some <==> self@.title_editor is Some,
            editor is Some ==> editor->0.text@ == self@.title_editor->0.content
                && editor->0.cursor == self@.title_editor->0.cursor,
    {
        match &self.title_editor_input_field {
            Some(editor) => Some(FieldText { text: editor.get_content(), cursor: editor.cursor() }),
            None => None,
        }
    }

    /// The text and the cursor of the popup for the image path, while it is
    /// open.
    pub fn image_popup(&self) -> (popup: Option<FieldText>)
        ensures
            popup is Some <==> self@.image_popup is Some,
            popup is Some ==> popup->0.text@ == self@.image_popup->0.field.content
                && popup->0.cursor == self@.image_popup->0.field.cursor,
    {
        match &self.image_url_input_popup {
            Some(popup) => Some(FieldText { text: popup.get_content(), cursor: popup.cursor() }),
            None => None,
        }
    }

    /// What the input line shows.
    pub fn input_line(&self) -> (line: InputLine)
        ensures
            line@ == self@.input_line(),
    {
        if self.receiving_message {
            InputLine::Receiving
        } else {
            match &self.response_status {
                ResponseStatus::Failed(message) => InputLine::Failed(copy_of(message)),
                ResponseStatus::Idle => InputLine::Text(self.input_field_component.get_content()),
            }
        }
    }

    /// The title that the header shows.
    pub fn header_title(&self) -> (title: String)
        ensures
            title@ == self@.header_title(),
    {
        if is_blank(&self.title) {
            "Gemini Chat".to_owned()
        } else {
            copy_of(&self.title)
        }
    }

    /// The title of the input line.
    pub fn input_block_title(&self) -> (title: String)
        ensures
            title@ == self@.input_block_title(),
    {
        if self.gemini.is_none() {
            "Input Key".to_owned()
        } else {
            "Input Text".to_owned()
        }
    }

    /// The hint on the image path at the input line.
    pub fn image_tip(&self) -> (tip: String)
        ensures
            tip@ == self@.image_tip(),
    {
        match &self.image_path {
            Some(path) if !is_blank(path) => {
                let opened = joined("[", path.as_str());
                joined(opened.as_str(), "] Press F4 Modify Image Path")
            },
            _ => "Press F4 Set Image Path".to_owned(),
        }
    }

    /// The hint on the key that shows or hides the sidebar.
    pub fn sidebar_tip(&self) -> (tip: String)
        ensures
            tip@ == (if self@.chat_item_list.show {
                "< F3"@
            } else {
                "> F3"@
            }),
    {
        if self.chat_item_list.show {
            "< F3".to_owned()
        } else {
            "> F3".to_owned()
        }
    }

    /// The hint on the key that edits or saves the title.
    pub fn edit_tip(&self) -> (tip: String)
        ensures
            tip@ == (if self@.title_editor is None {
                "F1(Edit)"@
            } else {
                "F1(Save)"@
            }),
    {
        if self.title_editor_input_field.is_none() {
            "F1(Edit)".to_owned()
        } else {
            "F1(Save)".to_owned()
        }
    }

    /// Tells the window how high the transcript was drawn.
    pub fn set_chat_history_area_height(&mut self, height: u16)
        requires
            old(self).wf(),
        ensures
            final(self).wf(),
            final(self)@ == (UIView { chat_history_area_height: height, ..old(self)@ }),
    {
        self.chat_show.chat_history_area_height = height;
    }

    /// Makes the client from a key alone and returns the configuration to
    /// store for it.
    pub fn init_gemini(&mut self, key: String) -> (data: StoreData)
        requires
            old(self).wf(),
        ensures
            final(self).wf(),
            final(self)@ == old(self)@.with_key(key@),
            data@ == keyed_config(key@),
            old(self)@.id_tells_success() ==> final(self)@.id_tells_success(),
    {
        let mut gemini = Gemini::new_default_model(key);
        gemini.set_system_instruction(String::new());
        let data = StoreData {
            key: copy_of(&gemini.key),
            url: copy_of(&gemini.url),
            system_instruction: Some(String::new()),
            db_version: None,
        };
        let history: Vec<Content> = Vec::new();
        assert(views(history@) =~= Seq::empty());
        gemini.start_chat(history);
        self.gemini = Some(gemini);
        data
    }

    /// Restores the client from the stored configuration, or makes it from a
    /// key. `config` is the stored configuration, if it could be read; `key`
    /// is what the user typed as a key, if anything; `env_key` is the key of
    /// the environment, if it has one. Returns the configuration to store.
    pub fn restore_or_new_gemini(
        &mut self,
        config: Option<StoreData>,
        key: Option<String>,
        env_key: Option<String>,
    ) -> (data: Option<StoreData>)
        requires
            old(self).wf(),
        ensures
            final(self).wf(),
            final(self)@ == old(self)@.restored(
                config_view(config),
                text_view(key),
                text_view(env_key),
            ),
            config_view(data) == UIView::restored_config(
                config_view(config),
                text_view(key),
                text_view(env_key),
            ),
            old(self)@.id_tells_success() ==> final(self)@.id_tells_success(),
    {
        match config {
            Some(store_data) => {
                let StoreData { key: stored_key, url, system_instruction, db_version } = store_data;
                let instruction = match system_instruction {
                    Some(instruction) => instruction,
                    None => String::new(),
                };
                match self.gemini.take() {
                    Some(origin) => {
                        let mut gemini_new = Gemini::rebuild(stored_key, url, origin.contents);
                        gemini_new.set_system_instruction(instruction);
                        self.gemini = Some(gemini_new);
                    },
                    None => {
                        let history: Vec<Content> = Vec::new();
                        assert(views(history@) =~= Seq::empty());
                        let mut gemini_new = Gemini::rebuild(stored_key, url, history);
                        gemini_new.set_system_instruction(instruction);
                        self.db_version = db_version;
                        self.gemini = Some(gemini_new);
                    },
                }
                None
            },
            None => match key {
                Some(key) => Some(self.init_gemini(key)),
                None => match env_key {
                    Some(key) => Some(self.init_gemini(key)),
                    None => None,
                },
            },
        }
    }

    /// Looks after the tables of the store as the program starts: where the
    /// window knows them at another version than `current`, they are
    /// created and the window notes the version. Returns whether that was
    /// due.
    pub fn prepare_store(&mut self, store: &mut ConversationStore, current: String) -> (due: bool)
        requires
            old(self).wf(),
            old(store).wf(),
        ensures
            final(self).wf(),
            final(store).wf(),
            due == old(self)@.migration_due(current@),
            final(self)@ == old(self)@.store_prepared(current@),
            final(store)@ == (if due {
                old(store)@.created()
            } else {
                old(store)@
            }),
    {
        if self.migration_due(current.as_str()) {
            let _ = create_table(store);
            self.set_db_version(current);
            true
        } else {
            false
        }
    }

    /// Whether the tables of the store have to be brought to the version
    /// `current`.
    pub fn migration_due(&self, current: &str) -> (due: bool)
        ensures
            due == self@.migration_due(current@),
    {
        match &self.db_version {
            Some(version) => !same_text(version.as_str(), current),
            None => {
                assert(current@.len() == 0 ==> current@ =~= Seq::<char>::empty());
                !current.is_empty()
            },
        }
    }

    /// Notes the version of the store's tables.
    pub fn set_db_version(&mut self, version: String)
        requires
            old(self).wf(),
        ensures
            final(self).wf(),
            final(self)@ == (UIView { db_version: Some(version@), ..old(self)@ }),
    {
        self.db_version = Some(version);
    }

    /// Submits the input line at the time `now`.
    pub fn submit_message_at(&mut self, now: i64) -> (action: Action)
        requires
            old(self).wf(),
        ensures
            final(self).wf(),
            final(self)@ == old(self)@.submitted(now),
            action@ == old(self)@.submit_action(),
            old(self)@.id_tells_success() ==> final(self)@.id_tells_success(),
    {
        let content = self.input_field_component.get_content();
        if is_blank(&content) || self.receiving_message {
            return Action::Nothing;
        }
        let action = if self.gemini.is_none() {
            Action::CreateClient { key: content }
        } else {
            let image_path = match &self.image_path {
                Some(path) => copy_of(path),
                None => String::new(),
            };
            let turn = ChatMessage {
                status: DeliveryStatus::Pending,
                sender: Sender::User(copy_of(&image_path)),
                message: copy_of(&content),
                date_time: now,
            };
            proof {
                lemma_views_push(self.chat_show.chat_history@, turn);
                let before = old(self)@.chat_history;
                let after = before.push(turn@);
                assert forall|i: int| 0 <= i && i + 1 < after.len() implies (#[trigger] after[i]).status
                    != DeliveryStatus::Pending by {
                    assert(after[i] == before[i]);
                    if i + 1 == before.len() {
                        assert(before[i] == before.last());
                    }
                }
                if has_success(after) {
                    let k = choose|k: int|
                        0 <= k < after.len() && (#[trigger] after[k]).status
                            == DeliveryStatus::Success;
                    assert(before[k].status == DeliveryStatus::Success);
                }
                if has_success(before) {
                    let k = choose|k: int|
                        0 <= k < before.len() && (#[trigger] before[k]).status
                            == DeliveryStatus::Success;
                    assert(after[k].status == DeliveryStatus::Success);
                }
            }
            self.chat_show.chat_history.push(turn);
            self.receiving_message = true;
            if is_blank(&image_path) {
                Action::Send(ChatType::Simple { message: content })
            } else {
                self.image_path = None;
                Action::Send(ChatType::Image { message: content, image_path })
            }
        };
        self.input_field_component.clear();
        self.chat_show.scroll_offset = self.chat_show.chat_history_area_height;
        action
    }

    /// Submits the input line now.
    pub fn submit_message(&mut self) -> (action: Action)
        requires
            old(self).wf(),
        ensures
            final(self).wf(),
            exists|now: i64| final(self)@ == #[trigger] old(self)@.submitted(now),
            action@ == old(self)@.submit_action(),
            old(self)@.id_tells_success() ==> final(self)@.id_tells_success(),
    {
        let now = current_time();
        self.submit_message_at(now)
    }

    /// Takes in the reply of the backend to the pending turn, with given
    /// ids and time. `encoded` is the image that went with the turn, if one
    /// did. What the store answers is not looked at.
    pub fn complete_with(
        &mut self,
        store: &mut ConversationStore,
        reply: Result<String, String>,
        encoded: Option<EncodedImage>,
        ids: FreshIds,
        now: i64,
    ) -> (action: Action)
        requires
            old(self).wf(),
            old(store).wf(),
        ensures
            final(self).wf(),
            final(store).wf(),
            final(self)@ == old(self)@.completed(
                reply_view(reply),
                encoded_view(encoded),
                ids@,
                now,
            ),
            final(store)@ == old(self)@.persisted(
                old(store)@,
                reply_view(reply),
                encoded_view(encoded),
                ids@,
                now,
            ),
            action@ == old(self)@.complete_action(reply_view(reply)),
            ids@.conversation_id.len() > 0 && old(self)@.id_tells_success() ==> final(self)@.id_tells_success(),
    {
        if !self.receiving_message {
            return Action::Nothing;
        }
        let ghost before = old(self)@.chat_history;
        let mut turn = match self.chat_show.chat_history.pop() {
            Some(turn) => turn,
            None => {
                return Action::Nothing;
            },
        };
        assert(turn@ == before.last());
        assert(views(self.chat_show.chat_history@) =~= before.drop_last());
        let FreshIds {
            conversation_id,
            user_record_id,
            user_image_record_id,
            bot_record_id,
            bot_image_record_id,
        } = ids;
        let action = match reply {
            Ok(response) => {
                if is_blank(&self.conversation_id) {
                    self.conversation_id = conversation_id;
                    if self.chat_item_list.selected_conversation < usize::MAX {
                        self.chat_item_list.selected_conversation =
                            self.chat_item_list.selected_conversation + 1;
                    }
                }
                let action = match &self.gemini {
                    Some(client) if is_blank(&self.title) && !self.gen_title_ing => {
                        Action::Summarize { key: copy_of(&client.key), text: copy_of(&response) }
                    },
                    _ => Action::Nothing,
                };
                if is_blank(&self.title) {
                    self.gen_title_ing = true;
                }
                turn.status = DeliveryStatus::Success;
                let said = user_paragraph(&turn, &encoded);
                let _ = save_conversation_with(
                    store,
                    copy_of(&self.conversation_id),
                    copy_of(&self.title),
                    turn.clone(),
                    user_record_id,
                    user_image_record_id,
                    encoded,
                );
                let bot = ChatMessage {
                    status: DeliveryStatus::Success,
                    sender: Sender::Bot,
                    message: normalize_response(response.as_str()),
                    date_time: now,
                };
                let _ = save_conversation_with(
                    store,
                    copy_of(&self.conversation_id),
                    copy_of(&self.title),
                    bot.clone(),
                    bot_record_id,
                    bot_image_record_id,
                    None,
                );
                match self.gemini.take() {
                    Some(mut client) => {
                        let answer = Content::text(Role::Model, response);
                        proof {
                            lemma_views_push(client.contents@, said);
                            lemma_views_push(client.contents@.push(said), answer);
                        }
                        client.contents.push(said);
                        client.contents.push(answer);
                        self.gemini = Some(client);
                    },
                    None => {},
                }
                proof {
                    lemma_views_push(self.chat_show.chat_history@, turn);
                    lemma_views_push(self.chat_show.chat_history@.push(turn), bot);
                    let after = before.drop_last().push(turn@).push(bot@);
                    assert forall|i: int| 0 <= i && i + 1 < after.len() implies (
                    #[trigger] after[i]).status != DeliveryStatus::Pending by {
                        if i + 2 < after.len() {
                            assert(after[i] == before[i]);
                        }
                    }
                    assert(after[after.len() - 1].status == DeliveryStatus::Success);
                }
                self.chat_show.chat_history.push(turn);
                self.chat_show.chat_history.push(bot);
                action
            },
            Err(message) => {
                self.response_status = ResponseStatus::Failed(message);
                turn.status = DeliveryStatus::Failed;
                proof {
                    lemma_views_push(self.chat_show.chat_history@, turn);
                    let after = before.drop_last().push(turn@);
                    assert forall|i: int| 0 <= i && i + 1 < after.len() implies (
                    #[trigger] after[i]).status != DeliveryStatus::Pending by {
                        assert(after[i] == before[i]);
                    }
                    if has_success(after) {
                        let k = choose|k: int|
                            0 <= k < after.len() && (#[trigger] after[k]).status
                                == DeliveryStatus::Success;
                        assert(before[k].status == DeliveryStatus::Success);
                    }
                    if has_success(before) {
                        let k = choose|k: int|
                            0 <= k < before.len() && (#[trigger] before[k]).status
                                == DeliveryStatus::Success;
                        assert(before.last() == before[before.len() - 1]);
                        assert(after[k].status == DeliveryStatus::Success);
                    }
                }
                self.chat_show.chat_history.push(turn);
                Action::Nothing
            },
        };
        self.receiving_message = false;
        action
    }

    /// Takes in the reply of the backend to the pending turn. `encoded` is
    /// the image that went with the turn, if one did. The ids that the
    /// completion needs are generated, and the time is read from the clock.
    pub fn complete(
        &mut self,
        store: &mut ConversationStore,
        reply: Result<String, String>,
        encoded: Option<EncodedImage>,
    ) -> (action: Action)
        requires
            old(self).wf(),
            old(store).wf(),
        ensures
            final(self).wf(),
            final(store).wf(),
            exists|ids: FreshIdsView, now: i64|
                {
                    &&& ids.generated()
                    &&& final(self)@ == #[trigger] old(self)@.completed(
                        reply_view(reply),
                        encoded_view(encoded),
                        ids,
                        now,
                    )
                    &&& final(store)@ == old(self)@.persisted(
                        old(store)@,
                        reply_view(reply),
                        encoded_view(encoded),
                        ids,
                        now,
                    )
                },
            action@ == old(self)@.complete_action(reply_view(reply)),
            old(self)@.id_tells_success() ==> final(self)@.id_tells_success(),
    {
        let ids = FreshIds::generate();
        let now = current_time();
        self.complete_with(store, reply, encoded, ids, now)
    }

    /// Takes in a title that the backend derived: sets it, notes that none is
    /// asked for any more, and gives it to the conversation in the store.
    /// The empty title stands for a request that failed, and only the note
    /// is taken of it. What the store answers is not looked at.
    pub fn title_ready(&mut self, store: &mut ConversationStore, title: String)
        requires
            old(self).wf(),
            old(store).wf(),
        ensures
            final(self).wf(),
            final(store).wf(),
            final(self)@ == old(self)@.titled(title@),
            final(store)@ == old(self)@.titled_store(old(store)@, title@),
            old(self)@.id_tells_success() ==> final(self)@.id_tells_success(),
    {
        self.gen_title_ing = false;
        if !is_blank(&title) {
            self.title = copy_of(&title);
            let _ = modify_title(store, copy_of(&self.conversation_id), title);
        }
    }

    /// Starts a new conversation.
    pub fn new_conversation(&mut self)
        requires
            old(self).wf(),
        ensures
            final(self).wf(),
            final(self)@ == old(self)@.renewed(),
            final(self)@.id_tells_success(),
    {
        self.receiving_message = false;
        self.response_status = ResponseStatus::Idle;
        let fresh = match &self.gemini {
            Some(client) => {
                let none: Vec<Content> = Vec::new();
                assert(views(none@) =~= Seq::empty());
                Some(restart(client, none))
            },
            None => None,
        };
        self.gemini = fresh;
        self.focus_component = MainFocusComponent::InputField;
        self.input_field_component.clear();
        self.image_path = None;
        self.title = String::new();
        self.conversation_id = String::new();
        self.chat_show = ChatShowScrollProps::default();
        assert(self@.chat_history =~= Seq::empty());
    }

    /// Loads a stored conversation with its records into the window.
    /// `images` holds, for each record in order, what the cache and the
    /// encoder gave for its image. Returns the requests to refresh the
    /// cache. While a reply is awaited nothing is loaded.
    pub fn switch_to(&mut self, conversation: Conversation, images: Vec<ImageLookup>) -> (requests:
        Vec<CacheRequest>)
        requires
            old(self).wf(),
        ensures
            final(self).wf(),
            final(self)@ == old(self)@.switched(conversation@, views(images@)),
            views(requests@) == (if old(self)@.receiving_message {
                Seq::empty()
            } else {
                refreshes_of(conversation@.conversation_records, views(images@))
            }),
            old(self)@.receiving_message && old(self)@.id_tells_success() ==> final(
                self
            )@.id_tells_success(),
            !old(self)@.receiving_message && (conversation@.conversation_id.len() > 0
                <==> conversation@.conversation_records.len() > 0) ==> final(
                self
            )@.id_tells_success(),
    {
        let mut requests: Vec<CacheRequest> = Vec::new();
        assert(views(requests@) =~= Seq::empty());
        if self.receiving_message {
            return requests;
        }
        let ghost records = conversation@.conversation_records;
        let ghost lookups = views(images@);
        let mut contents: Vec<Content> = Vec::new();
        let mut turns: Vec<ChatMessage> = Vec::new();
        let nothing = ImageLookup { cached: None, encoded: None };
        let mut i: usize = 0;
        assert(records.take(0) =~= Seq::empty());
        while i < conversation.conversation_records.len()
            invariant
                i <= conversation.conversation_records.len(),
                records == conversation@.conversation_records,
                records == views(conversation.conversation_records@),
                lookups == views(images@),
                nothing@ == (ImageLookupView { cached: None, encoded: None }),
                views(contents@) == history_of(records, lookups).take(i as int),
                views(turns@) == conversation@.turns().take(i as int),
                views(requests@) == refreshes_of(records.take(i as int), lookups),
            decreases conversation.conversation_records.len() - i,
        {
            let record = &conversation.conversation_records[i];
            let lookup = if i < images.len() {
                &images[i]
            } else {
                &nothing
            };
            assert(lookup@ == lookup_at(lookups, i as int));
            let (content, request) = record_paragraph(record, lookup);
            let turn = ChatMessage {
                status: DeliveryStatus::Success,
                sender: record.record_sender.clone(),
                message: copy_of(&record.record_content),
                date_time: record.record_time,
            };
            proof {
                lemma_views_push(contents@, content);
                lemma_views_push(turns@, turn);
                assert(records[i as int] == record@);
                assert(history_of(records, lookups).take(i + 1) == history_of(
                    records,
                    lookups,
                ).take(i as int).push(paragraph_of(record@, lookup@)));
                assert(conversation@.turns().take(i + 1) == conversation@.turns().take(
                    i as int,
                ).push(record@.turn()));
                assert(records.take(i + 1).drop_last() == records.take(i as int));
                assert(records.take(i + 1).last() == record@);
            }
            contents.push(content);
            turns.push(turn);
            match request {
                Some(request) => {
                    proof {
                        lemma_views_push(requests@, request);
                    }
                    requests.push(request);
                },
                None => {},
            }
            i = i + 1;
        }
        proof {
            assert(records.take(i as int) == records);
            assert(history_of(records, lookups).take(i as int) == history_of(records, lookups));
            assert(conversation@.turns().take(i as int) == conversation@.turns());
            let shown = conversation@.turns();
            if shown.len() > 0 {
                assert(shown[0].status == DeliveryStatus::Success);
            }
        }
        let Conversation {
            conversation_id,
            conversation_title,
            conversation_start_time: _,
            conversation_modify_time: _,
            conversation_records: _,
        } = conversation;
        self.conversation_id = conversation_id;
        self.title = conversation_title;
        let fresh = match &self.gemini {
            Some(client) => Some(restart(client, contents)),
            None => None,
        };
        self.gemini = fresh;
        self.chat_show.chat_history = turns;
        self.focus_component = MainFocusComponent::ChatShow;
        self.input_field_component.clear();
        self.image_path = None;
        requests
    }

    /// Deletes a conversation from the store and, where it is the active
    /// one, starts a new conversation. What the store answers is not looked
    /// at.
    pub fn delete_conversation(&mut self, store: &mut ConversationStore, id: String)
        requires
            old(self).wf(),
            old(store).wf(),
        ensures
            final(self).wf(),
            final(store).wf(),
            final(self)@ == old(self)@.after_delete(id@),
            final(store)@ == (if old(store)@.ready {
                old(store)@.removed(id@)
            } else {
                old(store)@
            }),
            old(self)@.id_tells_success() ==> final(self)@.id_tells_success(),
    {
        let active = id == self.conversation_id;
        let _ = delete_one(store, id);
        if active {
            self.new_conversation();
        }
    }

    /// The conversation that the list shows at the selected place, without
    /// its records.
    pub fn selected_summary(&self, store: &ConversationStore) -> (summary: Option<Conversation>)
        requires
            store.wf(),
        ensures
            conversation_view(summary) == store@.shown_at(
                self@.chat_item_list.selected_conversation as int,
            ),
    {
        store.shown_at(self.chat_item_list.selected_conversation)
    }

    /// The conversation at the selected place of the list with its records,
    /// ready to be loaded.
    pub fn rebuild(&self, store: &ConversationStore) -> (conversation: Option<Conversation>)
        requires
            store.wf(),
        ensures
            conversation_view(conversation) == (match store@.shown_at(
                self@.chat_item_list.selected_conversation as int,
            ) {
                Some(summary) => Some(
                    ConversationView {
                        conversation_records: store@.records_of(summary.conversation_id),
                        ..summary
                    },
                ),
                None => None,
            }),
            conversation is Some ==> conversation->0@.well_formed(),
    {
        match self.selected_summary(store) {
            Some(summary) => match query_detail_by_id(store, summary) {
                Ok(conversation) => Some(conversation),
                Err(_) => None,
            },
            None => None,
        }
    }

    /// Selects the conversation above the selected one, if there is one.
    pub fn prev_item(&mut self)
        requires
            old(self).wf(),
        ensures
            final(self).wf(),
            final(self)@ == old(self)@.selecting(
                if old(self)@.chat_item_list.selected_conversation > 0 {
                    (old(self)@.chat_item_list.selected_conversation - 1) as usize
                } else {
                    0
                },
            ),
    {
        if self.chat_item_list.selected_conversation > 0 {
            self.chat_item_list.selected_conversation = self.chat_item_list.selected_conversation
                - 1;
        }
    }

    /// Selects the conversation below the selected one, if the list of the
    /// store's conversations has one.
    pub fn next_item(&mut self, store: &ConversationStore)
        requires
            old(self).wf(),
            store.wf(),
        ensures
            final(self).wf(),
            final(self)@ == old(self)@.selecting(old(self)@.selection_below(store@)),
    {
        let count = store.count();
        let place = self.chat_item_list.selected_conversation;
        if store.is_ready() && place < count && place + 1 < count {
            self.chat_item_list.selected_conversation = place + 1;
        }
    }

    /// Deletes the conversation at the selected place of the list and
    /// returns its id. Where it is the active conversation, a new
    /// conversation starts. Returns `None`, and changes nothing, where the
    /// list has no such place.
    pub fn delete_item(&mut self, store: &mut ConversationStore) -> (deleted: Option<String>)
        requires
            old(self).wf(),
            old(store).wf(),
        ensures
            final(self).wf(),
            final(store).wf(),
            text_view(deleted) == old(self)@.deleted_id(old(store)@),
            final(self)@ == old(self)@.item_deleted(old(store)@),
            final(store)@ == (match old(self)@.deleted_id(old(store)@) {
                Some(id) => old(store)@.removed(id),
                None => old(store)@,
            }),
            old(self)@.id_tells_success() ==> final(self)@.id_tells_success(),
    {
        let summary = match self.selected_summary(store) {
            Some(summary) => summary,
            None => {
                return None;
            },
        };
        let count = store.count();
        let place = self.chat_item_list.selected_conversation;
        if place > 0 && place + 1 >= count {
            self.chat_item_list.selected_conversation = place - 1;
        }
        let id = summary.conversation_id;
        self.delete_conversation(store, copy_of(&id));
        Some(id)
    }

    /// Moves focus to the next component.
    pub fn next_component(&mut self)
        requires
            old(self).wf(),
        ensures
            final(self).wf(),
            final(self)@ == old(self)@.advanced(),
    {
        self.focus_component = self.focus_component.next(self.chat_item_list.show);
    }

    /// Shows the sidebar if it is hidden and hides it if it is shown.
    pub fn show_and_hide_sidebar(&mut self)
        requires
            old(self).wf(),
        ensures
            final(self).wf(),
            final(self)@ == old(self)@.sidebar_toggled(),
    {
        self.focus_component = self.focus_component.toggled(self.chat_item_list.show);
        self.chat_item_list.show = !self.chat_item_list.show;
    }

    /// Opens the settings window.
    pub fn open_setting_menu(&mut self)
        requires
            old(self).wf(),
        ensures
            final(self).wf(),
            final(self)@ == (UIView {
                current_windows: CurrentWindows::SettingWindow(
                    SettingUI { should_exit: false, update: false },
                ),
                ..old(self)@
            }),
    {
        self.current_windows = CurrentWindows::SettingWindow(SettingUI::new());
    }

    /// Tells the window what the settings window has come to.
    pub fn update_setting(&mut self, setting: SettingUI)
        requires
            old(self).wf(),
        ensures
            final(self).wf(),
            final(self)@ == (if old(self)@.current_windows is SettingWindow {
                UIView { current_windows: CurrentWindows::SettingWindow(setting), ..old(self)@ }
            } else {
                old(self)@
            }),
    {
        match self.current_windows {
            CurrentWindows::SettingWindow(_) => {
                self.current_windows = CurrentWindows::SettingWindow(setting);
            },
            CurrentWindows::MainWindow => {},
        }
    }

    /// Looks after the settings window: once the user has left it, the main
    /// window comes back. Returns whether the client has to be restored
    /// because a setting was changed.
    pub fn close_settings(&mut self) -> (reload: bool)
        requires
            old(self).wf(),
        ensures
            final(self).wf(),
            final(self)@ == old(self)@.settings_closed(),
            reload == (old(self)@.current_windows matches CurrentWindows::SettingWindow(setting)
                && setting.should_exit && setting.update),
    {
        match self.current_windows {
            CurrentWindows::SettingWindow(setting) => {
                if setting.should_exit {
                    self.current_windows = CurrentWindows::MainWindow;
                    setting.update
                } else {
                    false
                }
            },
            CurrentWindows::MainWindow => false,
        }
    }

    /// Scrolls the transcript up by one line.
    pub fn up(&mut self)
        requires
            old(self).wf(),
        ensures
            final(self).wf(),
            final(self)@ == old(self)@.scrolled_up(),
    {
        if self.chat_show.scroll_offset > 0 {
            self.chat_show.scroll_offset = self.chat_show.scroll_offset - 1;
        }
    }

    /// Scrolls the transcript down by one line.
    pub fn down(&mut self)
        requires
            old(self).wf(),
        ensures
            final(self).wf(),
            final(self)@ == old(self)@.scrolled_down(),
    {
        let next: u16 = if self.chat_show.scroll_offset < u16::MAX {
            self.chat_show.scroll_offset + 1
        } else {
            self.chat_show.scroll_offset
        };
        let limit: u16 = self.max_scroll_offset();
        self.chat_show.scroll_offset = if next <= limit {
            next
        } else {
            limit
        };
    }

    /// Opens the popup for the image path, unless it is open.
    pub fn show_image_input(&mut self)
        requires
            old(self).wf(),
        ensures
            final(self).wf(),
            final(self)@ == old(self)@.image_input_shown(),
    {
        if self.image_url_input_popup.is_none() {
            let path = match &self.image_path {
                Some(path) => copy_of(path),
                None => String::new(),
            };
            self.image_url_input_popup = Some(InputPopup::new(path, 50, 3));
        }
    }

    /// Opens the title for editing, unless it is open.
    pub fn make_title_editable(&mut self)
        requires
            old(self).wf(),
        ensures
            final(self).wf(),
            final(self)@ == old(self)@.title_opened(),
    {
        if self.title_editor_input_field.is_none() {
            self.title_editor_input_field = Some(TextField::new(copy_of(&self.title)));
        }
    }

    /// Saves the edited title: it becomes the title of the conversation and,
    /// where the conversation is stored, its title in the store. What the
    /// store answers is not looked at.
    pub fn save_title(&mut self, store: &mut ConversationStore)
        requires
            old(self).wf(),
            old(store).wf(),
        ensures
            final(self).wf(),
            final(store).wf(),
            final(self)@ == old(self)@.title_saved(),
            final(store)@ == (if old(self)@.title_editor is Some && old(store)@.ready && old(self)@.conversation_id.len() > 0 {
                old(store)@.renamed(
                    old(self)@.conversation_id,
                    old(self)@.title_editor->0.content,
                )
            } else {
                old(store)@
            }),
    {
        let content = match &self.title_editor_input_field {
            Some(editor) => editor.get_content(),
            None => {
                return ;
            },
        };
        self.title = copy_of(&content);
        if !is_blank(&self.conversation_id) {
            let _ = modify_title(store, copy_of(&self.conversation_id), content);
        }
        self.title_editor_input_field = None;
    }

    /// Notes that the user asked to leave the program.
    fn leave(&mut self)
        requires
            old(self).wf(),
        ensures
            final(self).wf(),
            final(self)@ == old(self)@.leaving(),
    {
        self.should_exit = true;
    }

    /// Handles a key press while the title is edited.
    pub fn handle_title_edit_key_event(&mut self, store: &mut ConversationStore, key: KeyEvent)
        requires
            old(self).wf(),
            old(store).wf(),
        ensures
            final(self).wf(),
            final(store).wf(),
            final(self)@ == old(self)@.title_edit_key(key),
            final(store)@ == (if key.edits_title() {
                old(self)@.title_saved_store(old(store)@)
            } else {
                old(store)@
            }),
            old(self)@.id_tells_success() ==> final(self)@.id_tells_success(),
    {
        if key.is_control_char('t') || key.is_function(1) {
            self.save_title(store);
        } else {
            match key.code {
                KeyCode::Esc => self.leave(),
                code => {
                    match self.title_editor_input_field.take() {
                        Some(mut editor) => {
                            editor.edit(code);
                            self.title_editor_input_field = Some(editor);
                        },
                        None => {},
                    }
                },
            }
        }
    }

    /// Handles a key press in the popup for the image path.
    fn handle_image_popup_key_event(&mut self, key: KeyEvent)
        requires
            old(self).wf(),
        ensures
            final(self).wf(),
            final(self)@ == old(self)@.image_popup_key(key),
            old(self)@.id_tells_success() ==> final(self)@.id_tells_success(),
    {
        match self.image_url_input_popup.take() {
            Some(mut popup) => {
                match popup.handle_key(key) {
                    InputPopupHandleEvent::Save(text) => {
                        self.image_path = Some(text);
                    },
                    InputPopupHandleEvent::Cancel => {},
                    InputPopupHandleEvent::Nothing => {
                        self.image_url_input_popup = Some(popup);
                    },
                }
            },
            None => {},
        }
    }

    /// Handles a key press in the input line, at the time `now`.
    pub fn handle_input_key_event_common(&mut self, key: KeyEvent, now: i64) -> (action: Action)
        requires
            old(self).wf(),
        ensures
            final(self).wf(),
            final(self)@ == old(self)@.input_common_key(key, now),
            action@ == old(self)@.input_common_action(key),
            old(self)@.id_tells_success() ==> final(self)@.id_tells_success(),
    {
        match key.code {
            KeyCode::Tab => {},
            _ => {
                self.response_status = ResponseStatus::Idle;
            },
        }
        if key.is_control_char('s') || key.is_function(3) {
            self.show_and_hide_sidebar();
            Action::Nothing
        } else if key.is_control_char('i') || key.is_function(4) {
            self.show_image_input();
            Action::Nothing
        } else if key.is_control_char('t') || key.is_function(1) {
            self.make_title_editable();
            Action::Nothing
        } else {
            match key.code {
                KeyCode::Esc => {
                    self.leave();
                    Action::Nothing
                },
                KeyCode::Tab => {
                    self.next_component();
                    Action::Nothing
                },
                KeyCode::Enter => self.submit_message_at(now),
                code => {
                    self.input_field_component.edit(code);
                    Action::Nothing
                },
            }
        }
    }

    /// Handles a key press with focus on the input line, at the time `now`.
    pub fn handle_input_key_event(&mut self, key: KeyEvent, now: i64) -> (action: Action)
        requires
            old(self).wf(),
        ensures
            final(self).wf(),
            final(self)@ == old(self)@.input_key(key, now),
            action@ == old(self)@.input_action(key),
            old(self)@.id_tells_success() ==> final(self)@.id_tells_success(),
    {
        if self.image_url_input_popup.is_some() {
            self.handle_image_popup_key_event(key);
            Action::Nothing
        } else {
            self.handle_input_key_event_common(key, now)
        }
    }

    /// Handles a key press on the button for a new conversation.
    pub fn handle_new_chat_key_event(&mut self, key: KeyEvent)
        requires
            old(self).wf(),
        ensures
            final(self).wf(),
            final(self)@ == old(self)@.new_chat_key(key),
            old(self)@.id_tells_success() ==> final(self)@.id_tells_success(),
    {
        if key.is_control_char('s') || key.is_function(3) {
            self.show_and_hide_sidebar();
        } else {
            match key.code {
                KeyCode::Esc => self.leave(),
                KeyCode::Tab => self.next_component(),
                KeyCode::Enter => self.new_conversation(),
                _ => {},
            }
        }
    }

    /// Handles a key press on the list of conversations.
    pub fn handle_chat_list_key_event(&mut self, store: &mut ConversationStore, key: KeyEvent) -> (action:
        Action)
        requires
            old(self).wf(),
            old(store).wf(),
        ensures
            final(self).wf(),
            final(store).wf(),
            final(self)@ == old(self)@.chat_list_key(key, old(store)@),
            final(store)@ == old(self)@.chat_list_store(key, old(store)@),
            action@ == old(self)@.chat_list_action(key, old(store)@),
            old(self)@.id_tells_success() ==> final(self)@.id_tells_success(),
    {
        match self.chat_item_list.popup_delete_confirm_dialog {
            Some(mut popup) => {
                match key.code {
                    KeyCode::Tab => {
                        popup.next_button();
                        self.chat_item_list.popup_delete_confirm_dialog = Some(popup);
                    },
                    KeyCode::Enter => {
                        self.chat_item_list.popup_delete_confirm_dialog = None;
                        if popup.press() {
                            let _ = self.delete_item(store);
                        }
                    },
                    _ => {},
                }
                Action::Nothing
            },
            None => {
                if key.is_control_char('s') || key.is_function(3) {
                    self.show_and_hide_sidebar();
                    Action::Nothing
                } else {
                    match key.code {
                        KeyCode::Esc => {
                            self.leave();
                            Action::Nothing
                        },
                        KeyCode::Enter => match self.rebuild(store) {
                            Some(conversation) => Action::Load(conversation),
                            None => Action::Nothing,
                        },
                        KeyCode::Up => {
                            self.prev_item();
                            Action::Nothing
                        },
                        KeyCode::Down => {
                            self.next_item(store);
                            Action::Nothing
                        },
                        KeyCode::Delete => {
                            self.chat_item_list.popup_delete_confirm_dialog = Some(
                                DeletePopup::default(),
                            );
                            Action::Nothing
                        },
                        KeyCode::Tab => {
                            self.next_component();
                            Action::Nothing
                        },
                        _ => Action::Nothing,
                    }
                }
            },
        }
    }

    /// Handles a key press on the button for the settings.
    pub fn handle_setting_button_key_event(&mut self, key: KeyEvent)
        requires
            old(self).wf(),
        ensures
            final(self).wf(),
            final(self)@ == old(self)@.setting_button_key(key),
            old(self)@.id_tells_success() ==> final(self)@.id_tells_success(),
    {
        if key.is_control_char('s') || key.is_function(3) {
            self.show_and_hide_sidebar();
        } else {
            match key.code {
                KeyCode::Esc => self.leave(),
                KeyCode::Tab => self.next_component(),
                KeyCode::Enter => self.open_setting_menu(),
                _ => {},
            }
        }
    }

    /// Handles a key press on the transcript.
    pub fn handle_chat_show_key_event(&mut self, key: KeyEvent)
        requires
            old(self).wf(),
        ensures
            final(self).wf(),
            final(self)@ == old(self)@.chat_show_key(key),
            old(self)@.id_tells_success() ==> final(self)@.id_tells_success(),
    {
        if key.is_control_char('s') || key.is_function(3) {
            self.show_and_hide_sidebar();
        } else if key.is_control_char('t') || key.is_function(1) {
            self.make_title_editable();
        } else {
            match key.code {
                KeyCode::Esc => self.leave(),
                KeyCode::Tab => self.next_component(),
                KeyCode::Up => self.up(),
                KeyCode::Down => self.down(),
                _ => {},
            }
        }
    }

    /// Handles a key event at the time `now`.
    pub fn handle_key_at(&mut self, store: &mut ConversationStore, key: KeyEvent, now: i64) -> (action:
        Action)
        requires
            old(self).wf(),
            old(store).wf(),
        ensures
            final(self).wf(),
            final(store).wf(),
            final(self)@ == old(self)@.after_key(key, old(store)@, now),
            final(store)@ == old(self)@.key_store(key, old(store)@),
            action@ == old(self)@.key_action(key, old(store)@),
            old(self)@.id_tells_success() ==> final(self)@.id_tells_success(),
    {
        if self.receiving_message || !key.pressed {
            return Action::Nothing;
        }
        match self.current_windows {
            CurrentWindows::MainWindow => {},
            CurrentWindows::SettingWindow(_) => {
                return Action::Nothing;
            },
        }
        if self.title_editor_input_field.is_some() {
            self.handle_title_edit_key_event(store, key);
            Action::Nothing
        } else if self.chat_item_list.popup_delete_confirm_dialog.is_some() {
            self.handle_chat_list_key_event(store, key)
        } else if self.image_url_input_popup.is_some() {
            self.handle_input_key_event(key, now)
        } else {
            match self.focus_component {
                MainFocusComponent::InputField => self.handle_input_key_event(key, now),
                MainFocusComponent::NewChatButton => {
                    self.handle_new_chat_key_event(key);
                    Action::Nothing
                },
                MainFocusComponent::ChatItemList => self.handle_chat_list_key_event(store, key),
                MainFocusComponent::SettingButton => {
                    self.handle_setting_button_key_event(key);
                    Action::Nothing
                },
                MainFocusComponent::ChatShow => {
                    self.handle_chat_show_key_event(key);
                    Action::Nothing
                },
            }
        }
    }

    /// Handles a key event now.
    pub fn handle_key(&mut self, store: &mut ConversationStore, key: KeyEvent) -> (action: Action)
        requires
            old(self).wf(),
            old(store).wf(),
        ensures
            final(self).wf(),
            final(store).wf(),
            exists|now: i64| final(self)@ == #[trigger] old(self)@.after_key(key, old(store)@, now),
            final(store)@ == old(self)@.key_store(key, old(store)@),
            action@ == old(self)@.key_action(key, old(store)@),
            old(self)@.id_tells_success() ==> final(self)@.id_tells_success(),
    {
        let now = current_time();
        self.handle_key_at(store, key, now)
    }

    /// Takes in an event, with `ids` at hand for a reply and at the time
    /// `now`.
    pub fn handle_event_at(
        &mut self,
        store: &mut ConversationStore,
        event: Event,
        ids: FreshIds,
        now: i64,
    ) -> (action: Action)
        requires
            old(self).wf(),
            old(store).wf(),
        ensures
            final(self).wf(),
            final(store).wf(),
            final(self)@ == old(self)@.after_event(event@, old(store)@, ids@, now),
            final(store)@ == old(self)@.event_store(event@, old(store)@, ids@, now),
            action@ == old(self)@.event_action(event@, old(store)@),
            ids@.conversation_id.len() > 0 && old(self)@.id_tells_success() ==> final(
                self
            )@.id_tells_success(),
    {
        match event {
            Event::Title(title) => {
                self.title_ready(store, title);
                Action::Nothing
            },
            Event::Reply { reply, encoded } => self.complete_with(store, reply, encoded, ids, now),
            Event::Key(key) => self.handle_key_at(store, key, now),
        }
    }

    /// Takes in an event now: a title that arrived, a reply of the backend,
    /// or a key event. The ids that a reply needs are generated, and the
    /// time is read from the clock.
    pub fn handle_event(&mut self, store: &mut ConversationStore, event: Event) -> (action: Action)
        requires
            old(self).wf(),
            old(store).wf(),
        ensures
            final(self).wf(),
            final(store).wf(),
            exists|ids: FreshIdsView, now: i64|
                {
                    &&& ids.generated()
                    &&& final(self)@ == #[trigger] old(self)@.after_event(
                        event@,
                        old(store)@,
                        ids,
                        now,
                    )
                    &&& final(store)@ == old(self)@.event_store(event@, old(store)@, ids, now)
                },
            action@ == old(self)@.event_action(event@, old(store)@),
            old(self)@.id_tells_success() ==> final(self)@.id_tells_success(),
    {
        let ids = FreshIds::generate();
        let now = current_time();
        self.handle_event_at(store, event, ids, now)
    }
}

/// The time of the clock, from `chrono::Local::now`, in milliseconds since
/// the Unix epoch as `timestamp_millis` gives them. Nothing is believed of
/// the number.
#[verifier::external_body]
fn current_time() -> (now: i64) {
    chrono::Local::now().timestamp_millis()
}

} // verus!
