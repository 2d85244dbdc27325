use gemini::db_utils::{
    create_table, query_all, query_detail_by_id, save_conversation_with, ConversationStore, StoreWrite,
};
use gemini::focus::MainFocusComponent;
use gemini::key::{KeyCode, KeyEvent};
use gemini::language_model::{Content, Part, Role};
use gemini::config::StoreData;
use gemini::history::{read_image_data, CacheRequest, ImageLookup};
use gemini::main_page::{
    Action, ChatType, CurrentWindows, Event, FieldText, FreshIds, InputLine, SettingUI, UI,
};
use gemini::message::{ChatMessage, DeliveryStatus, Sender};
use gemini::record::{Conversation, EncodedImage};

fn ready_store() -> ConversationStore {
    let mut store = ConversationStore::new();
    create_table(&mut store).unwrap();
    store
}

fn window_with_client() -> UI {
    let mut ui = UI::new();
    let stored = ui.restore_or_new_gemini(None, Some("secret".to_string()), None);
    assert!(stored.is_some());
    ui
}

fn press(ui: &mut UI, store: &mut ConversationStore, code: KeyCode) -> Action {
    ui.handle_key_at(store, KeyEvent::press(code), 1000)
}

fn type_text(ui: &mut UI, store: &mut ConversationStore, text: &str) {
    for c in text.chars() {
        assert_eq!(press(ui, store, KeyCode::Char(c)), Action::Nothing);
    }
}

fn submit(ui: &mut UI, store: &mut ConversationStore, text: &str) -> Action {
    type_text(ui, store, text);
    press(ui, store, KeyCode::Enter)
}

fn ids(tag: &str) -> FreshIds {
    FreshIds {
        conversation_id: format!("conv-{}", tag),
        user_record_id: format!("user-{}", tag),
        user_image_record_id: format!("uimg-{}", tag),
        bot_record_id: format!("bot-{}", tag),
        bot_image_record_id: format!("bimg-{}", tag),
    }
}

fn user(text: &str, status: DeliveryStatus, time: i64) -> ChatMessage {
    ChatMessage { status, sender: Sender::User(String::new()), message: text.to_string(), date_time: time }
}

fn bot(text: &str, time: i64) -> ChatMessage {
    ChatMessage { status: DeliveryStatus::Success, sender: Sender::Bot, message: text.to_string(), date_time: time }
}

fn pending(ui: &UI) -> usize {
    ui.chat_history().iter().filter(|t| t.status == DeliveryStatus::Pending).count()
}

fn png() -> EncodedImage {
    EncodedImage { image_type: "image/png".to_string(), image_base64: "AAAA".to_string() }
}

fn focus_on_list(ui: &mut UI, store: &mut ConversationStore) {
    while ui.focus_component() != MainFocusComponent::ChatItemList {
        press(ui, store, KeyCode::Tab);
    }
}

#[test]
fn window_starts_empty_with_focus_on_the_input_line() {
    let ui = UI::new();
    assert_eq!(ui.focus_component(), MainFocusComponent::InputField);
    assert_eq!(ui.current_windows(), CurrentWindows::MainWindow);
    assert!(!ui.receiving_message() && !ui.should_exit() && !ui.gen_title_ing());
    assert!(ui.chat_history().is_empty());
    assert_eq!(ui.conversation_id(), "");
    assert_eq!(ui.title(), "");
    assert_eq!(ui.image_path(), None);
    assert_eq!(ui.error_message(), None);
    assert!(ui.gemini().is_none());
    assert!(ui.chat_item_list().show);
    assert!(ui.blank_image());
}

#[test]
fn first_exchange_succeeds() {
    let mut store = ready_store();
    let mut ui = window_with_client();
    let sent = submit(&mut ui, &mut store, "Hello");
    assert_eq!(sent, Action::Send(ChatType::Simple { message: "Hello".to_string() }));
    assert!(ui.receiving_message());
    assert_eq!(ui.input(), "");
    assert_eq!(ui.chat_history(), vec![user("Hello", DeliveryStatus::Pending, 1000)]);

    let action = ui.complete(&mut store, Ok("Hi there".to_string()), None);
    assert_eq!(action, Action::Summarize { key: "secret".to_string(), text: "Hi there".to_string() });
    assert!(!ui.receiving_message());
    assert!(!ui.conversation_id().is_empty());
    assert_eq!(ui.conversation_id().len(), 10);
    assert_eq!(ui.title(), "");
    assert!(ui.gen_title_ing());
    let turns = ui.chat_history();
    assert_eq!(turns.len(), 2);
    assert_eq!(turns[0], user("Hello", DeliveryStatus::Success, 1000));
    assert_eq!((turns[1].status, &turns[1].sender, turns[1].message.as_str()), (DeliveryStatus::Success, &Sender::Bot, "Hi there"));

    let rows = query_all(&store).unwrap();
    assert_eq!(rows.len(), 1);
    assert_eq!(rows[0].conversation_id, ui.conversation_id());
    let detail = query_detail_by_id(&store, rows[0].clone()).unwrap();
    assert_eq!(detail.conversation_records.len(), 2);
    assert_eq!(detail.conversation_records[0].sort_index, 0);
    assert_eq!(detail.conversation_records[1].sort_index, 1);
    assert_eq!(detail.conversation_records[0].record_content, "Hello");
    assert_eq!(detail.conversation_records[0].record_sender, Sender::User(String::new()));
    assert_eq!(detail.conversation_records[1].record_content, "Hi there");
    assert_eq!(detail.conversation_records[1].record_sender, Sender::Bot);
}

#[test]
fn failed_exchange_stores_nothing() {
    let mut store = ready_store();
    let mut ui = window_with_client();
    submit(&mut ui, &mut store, "Hello");
    let action = ui.complete(&mut store, Err("quota exceeded".to_string()), None);
    assert_eq!(action, Action::Nothing);
    assert_eq!(ui.chat_history(), vec![user("Hello", DeliveryStatus::Failed, 1000)]);
    assert_eq!(ui.conversation_id(), "");
    assert_eq!(ui.error_message(), Some("quota exceeded".to_string()));
    assert!(!ui.receiving_message());
    assert!(!ui.gen_title_ing());
    assert!(query_all(&store).unwrap().is_empty());
    assert_eq!(store.count(), 0);
}

#[test]
fn title_arrives_after_the_first_exchange() {
    let mut store = ready_store();
    let mut ui = window_with_client();
    submit(&mut ui, &mut store, "Hello");
    ui.complete(&mut store, Ok("Hi there".to_string()), None);
    ui.title_ready(&mut store, "Greeting".to_string());
    assert_eq!(ui.title(), "Greeting");
    assert!(!ui.gen_title_ing());
    let rows = query_all(&store).unwrap();
    assert_eq!(rows.len(), 1);
    assert_eq!(rows[0].conversation_title, "Greeting");
    assert_eq!(query_detail_by_id(&store, rows[0].clone()).unwrap().conversation_records.len(), 2);
}

#[test]
fn deleting_the_active_conversation_starts_a_new_one() {
    let mut store = ready_store();
    let mut ui = window_with_client();
    submit(&mut ui, &mut store, "Hello");
    ui.complete(&mut store, Ok("Hi there".to_string()), None);
    ui.title_ready(&mut store, "Greeting".to_string());
    focus_on_list(&mut ui, &mut store);
    // A new conversation moved the selection down by one; go back to the top.
    press(&mut ui, &mut store, KeyCode::Up);
    assert_eq!(ui.chat_item_list().selected_conversation, 0);
    press(&mut ui, &mut store, KeyCode::Delete);
    assert!(ui.chat_item_list().popup_delete_confirm_dialog.is_some());
    press(&mut ui, &mut store, KeyCode::Tab);
    assert_eq!(ui.focus_component(), MainFocusComponent::ChatItemList);
    press(&mut ui, &mut store, KeyCode::Enter);
    assert!(ui.chat_item_list().popup_delete_confirm_dialog.is_none());
    assert!(ui.chat_history().is_empty());
    assert_eq!(ui.conversation_id(), "");
    assert_eq!(ui.title(), "");
    assert_eq!(ui.focus_component(), MainFocusComponent::InputField);
    assert!(query_all(&store).unwrap().is_empty());
    assert!(ui.gemini().unwrap().contents.is_empty());
}

#[test]
fn loading_with_a_cache_miss_refreshes_the_cache() {
    let mut store = ready_store();
    save_conversation_with(
        &mut store,
        "c1".to_string(),
        "Cats".to_string(),
        user("Hello", DeliveryStatus::Success, 1),
        "r0".to_string(),
        "i0".to_string(),
        None,
    )
    .unwrap();
    let with_image = ChatMessage {
        status: DeliveryStatus::Success,
        sender: Sender::User("/tmp/cat.png".to_string()),
        message: "What is this".to_string(),
        date_time: 2,
    };
    save_conversation_with(&mut store, "c1".to_string(), "Cats".to_string(), with_image.clone(), "r1".to_string(), "i1".to_string(), Some(png()))
        .unwrap();
    save_conversation_with(&mut store, "c1".to_string(), "Cats".to_string(), bot("A cat", 3), "r2".to_string(), "i2".to_string(), None)
        .unwrap();

    let mut ui = window_with_client();
    focus_on_list(&mut ui, &mut store);
    let conversation = match press(&mut ui, &mut store, KeyCode::Enter) {
        Action::Load(conversation) => conversation,
        other => panic!("expected a conversation to load, got {:?}", other),
    };
    assert_eq!(conversation.conversation_records.len(), 3);
    let miss = ImageLookup { cached: None, encoded: Some(png()) };
    let nothing = || ImageLookup { cached: None, encoded: None };
    let requests = ui.switch_to(conversation, vec![nothing(), miss, nothing()]);
    assert_eq!(
        requests,
        vec![CacheRequest { image_path: "/tmp/cat.png".to_string(), image_record_id: "i1".to_string() }]
    );
    assert_eq!(ui.conversation_id(), "c1");
    assert_eq!(ui.title(), "Cats");
    assert_eq!(ui.focus_component(), MainFocusComponent::ChatShow);
    assert_eq!(ui.chat_history(), vec![user("Hello", DeliveryStatus::Success, 1), with_image, bot("A cat", 3)]);
    assert_eq!(
        ui.gemini().unwrap().contents,
        vec![
            Content { parts: vec![Part::Text("Hello".to_string())], role: Some(Role::User) },
            Content {
                parts: vec![
                    Part::Text("What is this".to_string()),
                    Part::InlineData { mime_type: "image/png".to_string(), data: "AAAA".to_string() }
                ],
                role: Some(Role::User)
            },
            Content { parts: vec![Part::Text("A cat".to_string())], role: Some(Role::Model) },
        ]
    );
}

#[test]
fn cache_hit_asks_for_no_refresh() {
    let mut parts = vec![Part::Text("t".to_string())];
    let hit = ImageLookup { cached: Some(png()), encoded: None };
    assert_eq!(read_image_data("i".to_string(), "/p".to_string(), &hit, &mut parts), None);
    assert_eq!(parts.len(), 2);
    let both = ImageLookup {
        cached: Some(png()),
        encoded: Some(EncodedImage { image_type: "image/jpeg".to_string(), image_base64: "BBBB".to_string() }),
    };
    let mut parts = Vec::new();
    assert_eq!(read_image_data("i".to_string(), "/p".to_string(), &both, &mut parts), None);
    assert_eq!(parts, vec![Part::InlineData { mime_type: "image/png".to_string(), data: "AAAA".to_string() }]);
    let gone = ImageLookup { cached: None, encoded: None };
    let mut parts = Vec::new();
    assert_eq!(read_image_data("i".to_string(), "/p".to_string(), &gone, &mut parts), None);
    assert!(parts.is_empty());
}

#[test]
fn at_most_one_turn_is_pending() {
    let mut store = ready_store();
    let mut ui = window_with_client();
    assert_eq!(pending(&ui), 0);
    submit(&mut ui, &mut store, "one");
    assert_eq!(pending(&ui), 1);
    // Keys are not taken while the reply is awaited, and a second submission is refused.
    type_text(&mut ui, &mut store, "two");
    assert_eq!(ui.input(), "");
    assert_eq!(ui.submit_message_at(5), Action::Nothing);
    assert_eq!(pending(&ui), 1);
    ui.complete(&mut store, Err("e".to_string()), None);
    assert_eq!(pending(&ui), 0);
    submit(&mut ui, &mut store, "three");
    assert_eq!(pending(&ui), 1);
    ui.complete(&mut store, Ok("four".to_string()), None);
    assert_eq!(pending(&ui), 0);
    assert_eq!(ui.chat_history().len(), 3);
}

#[test]
fn failures_leave_no_gap_in_the_sort_indices() {
    let mut store = ready_store();
    let mut ui = window_with_client();
    for _ in 0..3 {
        submit(&mut ui, &mut store, "try");
        ui.complete(&mut store, Err("down".to_string()), None);
        assert_eq!(ui.conversation_id(), "");
        assert_eq!(store.count(), 0);
    }
    submit(&mut ui, &mut store, "works");
    ui.complete_with(&mut store, Ok("yes".to_string()), None, ids("a"), 50);
    submit(&mut ui, &mut store, "fails");
    ui.complete_with(&mut store, Err("down".to_string()), None, ids("b"), 60);
    submit(&mut ui, &mut store, "again");
    ui.complete_with(&mut store, Ok("sure".to_string()), None, ids("c"), 70);
    assert_eq!(ui.conversation_id(), "conv-a");
    let detail = query_detail_by_id(&store, query_all(&store).unwrap().remove(0)).unwrap();
    let stored: Vec<(u64, &str, &str)> = detail
        .conversation_records
        .iter()
        .map(|r| (r.sort_index, r.record_id.as_str(), r.record_content.as_str()))
        .collect();
    assert_eq!(
        stored,
        vec![(0, "user-a", "works"), (1, "bot-a", "yes"), (2, "user-c", "again"), (3, "bot-c", "sure")]
    );
    assert_eq!(store.count(), 1);
}

#[test]
fn id_is_assigned_once_and_only_on_success() {
    let mut store = ready_store();
    let mut ui = window_with_client();
    submit(&mut ui, &mut store, "a");
    ui.complete_with(&mut store, Err("x".to_string()), None, ids("1"), 1);
    assert_eq!(ui.conversation_id(), "");
    submit(&mut ui, &mut store, "b");
    ui.complete_with(&mut store, Ok("y".to_string()), None, ids("2"), 2);
    assert_eq!(ui.conversation_id(), "conv-2");
    submit(&mut ui, &mut store, "c");
    ui.complete_with(&mut store, Ok("z".to_string()), None, ids("3"), 3);
    assert_eq!(ui.conversation_id(), "conv-2");
    press(&mut ui, &mut store, KeyCode::Tab);
    press(&mut ui, &mut store, KeyCode::Enter);
    assert_eq!(ui.conversation_id(), "");
    assert!(ui.chat_history().is_empty());
}

#[test]
fn reply_is_tidied_for_the_transcript_but_not_for_the_history() {
    let mut store = ready_store();
    let mut ui = window_with_client();
    submit(&mut ui, &mut store, "q");
    let action = ui.complete_with(&mut store, Ok("line one\n\nline two\n".to_string()), None, ids("a"), 77);
    assert_eq!(action, Action::Summarize { key: "secret".to_string(), text: "line one\n\nline two\n".to_string() });
    assert_eq!(ui.chat_history()[1], bot("line one\nline two", 77));
    let history = ui.gemini().unwrap().contents;
    assert_eq!(
        history,
        vec![Content::text(Role::User, "q".to_string()), Content::text(Role::Model, "line one\n\nline two\n".to_string())]
    );
}

#[test]
fn title_is_asked_for_once_while_none_is_there() {
    let mut store = ready_store();
    let mut ui = window_with_client();
    submit(&mut ui, &mut store, "a");
    assert!(matches!(ui.complete(&mut store, Ok("b".to_string()), None), Action::Summarize { .. }));
    submit(&mut ui, &mut store, "c");
    assert_eq!(ui.complete(&mut store, Ok("d".to_string()), None), Action::Nothing);
    // A failed summary arrives as the empty title, and the next exchange asks again.
    ui.title_ready(&mut store, String::new());
    assert!(!ui.gen_title_ing());
    assert_eq!(ui.title(), "");
    assert!(store.take_journal().iter().all(|w| !matches!(w, StoreWrite::RenameConversation { .. })));
    submit(&mut ui, &mut store, "e");
    assert!(matches!(ui.complete(&mut store, Ok("f".to_string()), None), Action::Summarize { .. }));
    ui.title_ready(&mut store, "Letters".to_string());
    submit(&mut ui, &mut store, "g");
    assert_eq!(ui.complete(&mut store, Ok("h".to_string()), None), Action::Nothing);
    assert!(!ui.gen_title_ing());
}

#[test]
fn first_text_without_a_client_is_taken_for_the_key() {
    let mut store = ready_store();
    let mut ui = UI::new();
    let action = submit(&mut ui, &mut store, "my-key");
    assert_eq!(action, Action::CreateClient { key: "my-key".to_string() });
    assert!(ui.chat_history().is_empty());
    assert!(!ui.receiving_message());
    assert_eq!(ui.input(), "");
    let stored = ui.restore_or_new_gemini(None, Some("my-key".to_string()), Some("env-key".to_string())).unwrap();
    assert_eq!(stored.key, "my-key");
    assert_eq!(stored.system_instruction, Some(String::new()));
    assert_eq!(stored.db_version, None);
    assert_eq!(ui.gemini().unwrap().key, "my-key");
    assert!(ui.gemini().unwrap().url.ends_with("gemini-1.5-flash:generateContent"));
}

#[test]
fn stored_configuration_wins_over_keys() {
    let mut ui = UI::new();
    let config = || StoreData {
        key: "stored".to_string(),
        url: "https://example.invalid/model".to_string(),
        system_instruction: None,
        db_version: Some("2".to_string()),
    };
    assert_eq!(ui.restore_or_new_gemini(Some(config()), Some("typed".to_string()), Some("env".to_string())), None);
    let client = ui.gemini().unwrap();
    assert_eq!((client.key.as_str(), client.url.as_str()), ("stored", "https://example.invalid/model"));
    assert_eq!(client.system_instruction, Some(String::new()));
    assert!(!ui.migration_due("2"));
    assert!(ui.migration_due("3"));
    // A second restore keeps the history and the version that the window knows.
    let mut store = ready_store();
    submit(&mut ui, &mut store, "q");
    ui.complete(&mut store, Ok("a".to_string()), None);
    let newer = StoreData { db_version: Some("9".to_string()), system_instruction: Some("brief".to_string()), ..config() };
    assert_eq!(ui.restore_or_new_gemini(Some(newer), None, None), None);
    assert_eq!(ui.gemini().unwrap().contents.len(), 2);
    assert_eq!(ui.gemini().unwrap().system_instruction, Some("brief".to_string()));
    assert!(!ui.migration_due("2"));
}

#[test]
fn environment_key_is_the_last_resort() {
    let mut ui = UI::new();
    assert_eq!(ui.restore_or_new_gemini(None, None, None), None);
    assert!(ui.gemini().is_none());
    assert!(ui.migration_due("1"));
    assert!(!ui.migration_due(""));
    let stored = ui.restore_or_new_gemini(None, None, Some("env".to_string())).unwrap();
    assert_eq!(stored.key, "env");
    assert_eq!(ui.gemini().unwrap().key, "env");
    ui.set_db_version("1".to_string());
    assert!(!ui.migration_due("1"));
}

#[test]
fn image_path_popup_attaches_and_submit_sends_the_image() {
    let mut store = ready_store();
    let mut ui = window_with_client();
    ui.handle_key_at(&mut store, KeyEvent::press(KeyCode::F(4)), 1);
    for c in "/a.png".chars() {
        press(&mut ui, &mut store, KeyCode::Char(c));
    }
    assert_eq!(ui.input(), "");
    // Tab belongs to the popup while it is open.
    press(&mut ui, &mut store, KeyCode::Tab);
    assert_eq!(ui.focus_component(), MainFocusComponent::InputField);
    press(&mut ui, &mut store, KeyCode::Enter);
    assert_eq!(ui.image_path(), Some("/a.png".to_string()));
    assert!(!ui.blank_image());
    let action = submit(&mut ui, &mut store, "see");
    assert_eq!(action, Action::Send(ChatType::Image { message: "see".to_string(), image_path: "/a.png".to_string() }));
    assert_eq!(ui.image_path(), None);
    assert_eq!(ui.chat_history()[0].sender, Sender::User("/a.png".to_string()));
    ui.complete_with(&mut store, Ok("a png".to_string()), Some(png()), ids("a"), 9);
    let detail = query_detail_by_id(&store, query_all(&store).unwrap().remove(0)).unwrap();
    let image = detail.conversation_records[0].image_record.clone().unwrap();
    assert_eq!((image.image_record_id.as_str(), image.record_id.as_str(), image.image_path.as_str()), ("uimg-a", "user-a", "/a.png"));
    assert_eq!(detail.conversation_records[1].image_record, None);
    assert_eq!(ui.gemini().unwrap().contents[0].parts.len(), 2);
}

#[test]
fn image_path_popup_cancels_on_esc() {
    let mut store = ready_store();
    let mut ui = window_with_client();
    ui.handle_key_at(&mut store, KeyEvent::with_control('i'), 1);
    press(&mut ui, &mut store, KeyCode::Char('x'));
    press(&mut ui, &mut store, KeyCode::Esc);
    assert!(!ui.should_exit());
    assert_eq!(ui.image_path(), None);
    press(&mut ui, &mut store, KeyCode::Char('y'));
    assert_eq!(ui.input(), "y");
}

#[test]
fn title_can_be_edited_and_saved() {
    let mut store = ready_store();
    let mut ui = window_with_client();
    submit(&mut ui, &mut store, "q");
    ui.complete_with(&mut store, Ok("a".to_string()), None, ids("a"), 1);
    ui.title_ready(&mut store, "Old".to_string());
    ui.handle_key_at(&mut store, KeyEvent::press(KeyCode::F(1)), 1);
    press(&mut ui, &mut store, KeyCode::Backspace);
    press(&mut ui, &mut store, KeyCode::Char('k'));
    // Tab and Enter mean nothing to the editor.
    press(&mut ui, &mut store, KeyCode::Tab);
    press(&mut ui, &mut store, KeyCode::Enter);
    assert_eq!(ui.title(), "Old");
    assert_eq!(ui.focus_component(), MainFocusComponent::InputField);
    ui.handle_key_at(&mut store, KeyEvent::with_control('t'), 1);
    assert_eq!(ui.title(), "Olk");
    assert_eq!(query_all(&store).unwrap()[0].conversation_title, "Olk");
    // A typed title does not ask for a summary again.
    submit(&mut ui, &mut store, "r");
    assert_eq!(ui.complete(&mut store, Ok("s".to_string()), None), Action::Nothing);
}

#[test]
fn error_is_wiped_by_any_key_but_tab() {
    let mut store = ready_store();
    let mut ui = window_with_client();
    submit(&mut ui, &mut store, "q");
    ui.complete(&mut store, Err("quota exceeded".to_string()), None);
    press(&mut ui, &mut store, KeyCode::Tab);
    assert_eq!(ui.error_message(), Some("quota exceeded".to_string()));
    while ui.focus_component() != MainFocusComponent::InputField {
        press(&mut ui, &mut store, KeyCode::Tab);
    }
    press(&mut ui, &mut store, KeyCode::Left);
    assert_eq!(ui.error_message(), None);
}

#[test]
fn exit_key_works_from_every_component() {
    for steps in 0..5 {
        let mut store = ready_store();
        let mut ui = UI::new();
        for _ in 0..steps {
            press(&mut ui, &mut store, KeyCode::Tab);
        }
        assert!(!ui.should_exit());
        press(&mut ui, &mut store, KeyCode::Esc);
        assert!(ui.should_exit());
    }
}

#[test]
fn releases_are_not_key_presses() {
    let mut store = ready_store();
    let mut ui = UI::new();
    let release = KeyEvent { code: KeyCode::Char('x'), control: false, pressed: false };
    assert_eq!(ui.handle_key_at(&mut store, release, 1), Action::Nothing);
    assert_eq!(ui.input(), "");
    assert_eq!(ui.handle_key(&mut store, KeyEvent::press(KeyCode::Char('x'))), Action::Nothing);
    assert_eq!(ui.input(), "x");
}

#[test]
fn sidebar_toggle_keeps_focus_on_screen() {
    let mut store = ready_store();
    let mut ui = UI::new();
    press(&mut ui, &mut store, KeyCode::Tab);
    press(&mut ui, &mut store, KeyCode::Tab);
    assert_eq!(ui.focus_component(), MainFocusComponent::ChatItemList);
    ui.handle_key_at(&mut store, KeyEvent::press(KeyCode::F(3)), 1);
    assert!(!ui.chat_item_list().show);
    assert_eq!(ui.focus_component(), MainFocusComponent::InputField);
    press(&mut ui, &mut store, KeyCode::Tab);
    assert_eq!(ui.focus_component(), MainFocusComponent::ChatShow);
    press(&mut ui, &mut store, KeyCode::Tab);
    assert_eq!(ui.focus_component(), MainFocusComponent::InputField);
    ui.handle_key_at(&mut store, KeyEvent::with_control('s'), 1);
    assert!(ui.chat_item_list().show);
    assert_eq!(ui.input(), "");
}

#[test]
fn settings_open_and_close() {
    let mut store = ready_store();
    let mut ui = UI::new();
    for _ in 0..3 {
        press(&mut ui, &mut store, KeyCode::Tab);
    }
    assert_eq!(ui.focus_component(), MainFocusComponent::SettingButton);
    press(&mut ui, &mut store, KeyCode::Enter);
    assert_eq!(ui.current_windows(), CurrentWindows::SettingWindow(SettingUI::new()));
    // The main window takes no key while the settings are on screen.
    press(&mut ui, &mut store, KeyCode::Esc);
    assert!(!ui.should_exit());
    assert!(!ui.close_settings());
    ui.update_setting(SettingUI { should_exit: true, update: true });
    assert!(ui.close_settings());
    assert_eq!(ui.current_windows(), CurrentWindows::MainWindow);
    assert!(!ui.close_settings());
}

#[test]
fn transcript_scrolls_within_its_height() {
    let mut store = ready_store();
    let mut ui = UI::new();
    ui.set_chat_history_area_height(2);
    assert_eq!(ui.max_scroll_offset(), 2);
    for _ in 0..4 {
        press(&mut ui, &mut store, KeyCode::Tab);
    }
    assert_eq!(ui.focus_component(), MainFocusComponent::ChatShow);
    ui.up();
    ui.down();
    ui.down();
    ui.down();
    press(&mut ui, &mut store, KeyCode::Down);
    press(&mut ui, &mut store, KeyCode::Up);
    ui.handle_key_at(&mut store, KeyEvent::press(KeyCode::F(1)), 1);
    press(&mut ui, &mut store, KeyCode::Char('T'));
    ui.handle_key_at(&mut store, KeyEvent::press(KeyCode::F(1)), 1);
    assert_eq!(ui.title(), "T");
    assert!(query_all(&store).unwrap().is_empty());
}

#[test]
fn list_selection_moves_within_the_list_and_cancel_deletes_nothing() {
    let mut store = ready_store();
    for id in ["a", "b", "c"] {
        save_conversation_with(&mut store, id.to_string(), id.to_string(), bot("x", 1), "r".to_string(), "i".to_string(), None)
            .unwrap();
    }
    let mut ui = window_with_client();
    focus_on_list(&mut ui, &mut store);
    press(&mut ui, &mut store, KeyCode::Up);
    assert_eq!(ui.chat_item_list().selected_conversation, 0);
    assert_eq!(ui.selected_summary(&store).unwrap().conversation_id, "c");
    for _ in 0..5 {
        press(&mut ui, &mut store, KeyCode::Down);
    }
    assert_eq!(ui.chat_item_list().selected_conversation, 2);
    assert_eq!(ui.rebuild(&store).unwrap().conversation_id, "a");
    press(&mut ui, &mut store, KeyCode::Delete);
    // The dialog opens on the button that cancels, and takes every key.
    press(&mut ui, &mut store, KeyCode::Esc);
    press(&mut ui, &mut store, KeyCode::Up);
    assert!(!ui.should_exit());
    assert_eq!(ui.chat_item_list().selected_conversation, 2);
    press(&mut ui, &mut store, KeyCode::Enter);
    assert_eq!(store.count(), 3);
    press(&mut ui, &mut store, KeyCode::Delete);
    press(&mut ui, &mut store, KeyCode::Tab);
    press(&mut ui, &mut store, KeyCode::Enter);
    let ids: Vec<String> = query_all(&store).unwrap().into_iter().map(|c| c.conversation_id).collect();
    assert_eq!(ids, vec!["b", "c"]);
    assert_eq!(ui.chat_item_list().selected_conversation, 1);
    assert_eq!(ui.focus_component(), MainFocusComponent::ChatItemList);
}

#[test]
fn deleting_from_an_empty_list_changes_nothing() {
    let mut store = ready_store();
    let mut ui = window_with_client();
    type_text(&mut ui, &mut store, "draft");
    assert_eq!(ui.delete_item(&mut store), None);
    assert_eq!(ui.input(), "draft");
    assert_eq!(ui.rebuild(&store), None);
    focus_on_list(&mut ui, &mut store);
    assert_eq!(press(&mut ui, &mut store, KeyCode::Enter), Action::Nothing);
}

#[test]
fn saved_transcript_comes_back_on_load() {
    let mut store = ready_store();
    let mut ui = window_with_client();
    let said = [("one", "uno"), ("two", "dos\n"), ("three", "tres")];
    for (n, (question, answer)) in said.iter().enumerate() {
        submit(&mut ui, &mut store, question);
        ui.complete_with(&mut store, Ok(answer.to_string()), None, ids(&n.to_string()), 10 + n as i64);
    }
    let before = ui.chat_history();
    ui.new_conversation();
    assert!(ui.chat_history().is_empty());
    focus_on_list(&mut ui, &mut store);
    press(&mut ui, &mut store, KeyCode::Up);
    let conversation = match press(&mut ui, &mut store, KeyCode::Enter) {
        Action::Load(conversation) => conversation,
        other => panic!("expected a conversation to load, got {:?}", other),
    };
    assert!(ui.switch_to(conversation, Vec::new()).is_empty());
    assert_eq!(ui.chat_history(), before);
    assert_eq!(ui.conversation_id(), "conv-0");
    assert!(ui.chat_history().iter().all(|t| t.status == DeliveryStatus::Success));
    assert_eq!(ui.gemini().unwrap().contents.len(), 6);
}

#[test]
fn nothing_is_loaded_while_a_reply_is_awaited() {
    let mut store = ready_store();
    let mut ui = window_with_client();
    submit(&mut ui, &mut store, "q");
    let other = Conversation {
        conversation_id: "x".to_string(),
        conversation_title: "X".to_string(),
        conversation_start_time: 0,
        conversation_modify_time: 0,
        conversation_records: Vec::new(),
    };
    assert!(ui.switch_to(other, Vec::new()).is_empty());
    assert_eq!(ui.conversation_id(), "");
    assert_eq!(pending(&ui), 1);
    // A reply without a pending turn changes nothing.
    ui.complete(&mut store, Ok("a".to_string()), None);
    let turns = ui.chat_history();
    assert_eq!(ui.complete(&mut store, Ok("late".to_string()), None), Action::Nothing);
    assert_eq!(ui.chat_history(), turns);
}

#[test]
fn submit_reads_the_clock() {
    let mut ui = window_with_client();
    let mut store = ready_store();
    type_text(&mut ui, &mut store, "now");
    assert!(matches!(ui.submit_message(), Action::Send(_)));
    // Later than the first of January 2020, in milliseconds.
    assert!(ui.chat_history()[0].date_time > 1_577_836_800_000);
}

#[test]
fn store_without_tables_does_not_stop_the_exchange() {
    let mut store = ConversationStore::new();
    let mut ui = window_with_client();
    submit(&mut ui, &mut store, "q");
    ui.complete(&mut store, Ok("a".to_string()), None);
    assert_eq!(ui.chat_history().len(), 2);
    assert!(!ui.conversation_id().is_empty());
    assert_eq!(store.count(), 0);
}

#[test]
fn events_are_handed_to_their_handlers() {
    let mut store = ready_store();
    let mut ui = window_with_client();
    for c in "Hello".chars() {
        assert_eq!(ui.handle_event(&mut store, Event::Key(KeyEvent::press(KeyCode::Char(c)))), Action::Nothing);
    }
    assert_eq!(
        ui.handle_event_at(&mut store, Event::Key(KeyEvent::press(KeyCode::Enter)), ids("k"), 5),
        Action::Send(ChatType::Simple { message: "Hello".to_string() })
    );
    let reply = Event::Reply { reply: Ok("Hi there".to_string()), encoded: None };
    assert_eq!(
        ui.handle_event_at(&mut store, reply, ids("r"), 6),
        Action::Summarize { key: "secret".to_string(), text: "Hi there".to_string() }
    );
    assert_eq!(ui.conversation_id(), "conv-r");
    assert_eq!(ui.chat_history(), vec![user("Hello", DeliveryStatus::Success, 5), bot("Hi there", 6)]);
    assert_eq!(ui.handle_event(&mut store, Event::Title("Greeting".to_string())), Action::Nothing);
    assert_eq!(ui.title(), "Greeting");
    assert_eq!(query_all(&store).unwrap()[0].conversation_title, "Greeting");
    let failed = Event::Reply { reply: Err("late".to_string()), encoded: None };
    assert_eq!(ui.handle_event(&mut store, failed), Action::Nothing);
    assert_eq!(ui.error_message(), None);
}

#[test]
fn generated_ids_differ_from_each_other() {
    let ids = FreshIds::generate();
    let all = [
        &ids.conversation_id,
        &ids.user_record_id,
        &ids.user_image_record_id,
        &ids.bot_record_id,
        &ids.bot_image_record_id,
    ];
    for (i, a) in all.iter().enumerate() {
        assert_eq!(a.len(), 10);
        for b in &all[i + 1..] {
            assert_ne!(a, b);
        }
    }
}

#[test]
fn tables_are_created_when_the_version_is_new() {
    let mut store = ConversationStore::new();
    let mut ui = UI::new();
    assert!(ui.prepare_store(&mut store, "1".to_string()));
    assert!(store.is_ready());
    assert!(!ui.migration_due("1"));
    assert!(!ui.prepare_store(&mut store, "1".to_string()));
    assert!(ui.prepare_store(&mut store, "2".to_string()));
    assert_eq!(store.take_journal().len(), 1);
}

#[test]
fn input_line_shows_note_error_or_text() {
    let mut store = ConversationStore::new();
    let mut ui = UI::new();
    assert_eq!(ui.input_block_title(), "Input Key");
    assert_eq!(ui.header_title(), "Gemini Chat");
    ui.restore_or_new_gemini(None, Some("k".to_string()), None);
    assert_eq!(ui.input_block_title(), "Input Text");
    ui.handle_key_at(&mut store, KeyEvent::press(KeyCode::Char('a')), 1);
    assert_eq!(ui.input_line(), InputLine::Text("a".to_string()));
    assert_eq!(ui.input_cursor(), 1);
    ui.handle_key_at(&mut store, KeyEvent::press(KeyCode::Enter), 1);
    assert_eq!(ui.input_line(), InputLine::Receiving);
    ui.complete(&mut store, Err("quota exceeded".to_string()), None);
    assert_eq!(ui.input_line(), InputLine::Failed("quota exceeded".to_string()));
    ui.title_ready(&mut store, "Greeting".to_string());
    assert_eq!(ui.header_title(), "Greeting");
}

#[test]
fn hints_follow_the_state() {
    let mut store = ConversationStore::new();
    let mut ui = UI::new();
    assert_eq!(ui.sidebar_tip(), "< F3");
    assert_eq!(ui.edit_tip(), "F1(Edit)");
    assert_eq!(ui.image_tip(), "Press F4 Set Image Path");
    assert_eq!(ui.title_editor(), None);
    assert_eq!(ui.image_popup(), None);
    assert_eq!(ui.scroll_offset(), 0);
    ui.handle_key_at(&mut store, KeyEvent::press(KeyCode::F(3)), 1);
    assert_eq!(ui.sidebar_tip(), "> F3");
    ui.handle_key_at(&mut store, KeyEvent::press(KeyCode::F(4)), 1);
    ui.handle_key_at(&mut store, KeyEvent::press(KeyCode::Char('p')), 1);
    assert_eq!(ui.image_popup(), Some(FieldText { text: "p".to_string(), cursor: 1 }));
    ui.handle_key_at(&mut store, KeyEvent::press(KeyCode::Enter), 1);
    assert_eq!(ui.image_tip(), "[p] Press F4 Modify Image Path");
    ui.handle_key_at(&mut store, KeyEvent::press(KeyCode::F(1)), 1);
    assert_eq!(ui.edit_tip(), "F1(Save)");
    ui.handle_key_at(&mut store, KeyEvent::press(KeyCode::Char('T')), 1);
    ui.handle_key_at(&mut store, KeyEvent::press(KeyCode::Home), 1);
    assert_eq!(ui.title_editor(), Some(FieldText { text: "T".to_string(), cursor: 0 }));
}

#[test]
fn failed_summary_keeps_a_typed_title() {
    let mut store = ready_store();
    let mut ui = window_with_client();
    submit(&mut ui, &mut store, "q");
    ui.complete_with(&mut store, Ok("a".to_string()), None, ids("a"), 1);
    assert!(ui.gen_title_ing());
    ui.handle_key_at(&mut store, KeyEvent::press(KeyCode::F(1)), 1);
    press(&mut ui, &mut store, KeyCode::Char('M'));
    ui.handle_key_at(&mut store, KeyEvent::press(KeyCode::F(1)), 1);
    assert_eq!(ui.title(), "M");
    ui.title_ready(&mut store, String::new());
    assert_eq!(ui.title(), "M");
    assert!(!ui.gen_title_ing());
    assert_eq!(query_all(&store).unwrap()[0].conversation_title, "M");
}
