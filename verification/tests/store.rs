use gemini::db_utils::{
    create_table, delete_one, generate_unique_id, modify_title, query_all, query_detail_by_id,
    save_conversation, save_conversation_with, ConversationStore, StoreError, StoreWrite,
};
use gemini::message::{ChatMessage, DeliveryStatus, Sender};
use gemini::record::{Conversation, EncodedImage, ImageRecord, MessageRecord};

fn ready_store() -> ConversationStore {
    let mut store = ConversationStore::new();
    create_table(&mut store).unwrap();
    store
}

fn turn(sender: Sender, text: &str, time: i64) -> ChatMessage {
    ChatMessage { status: DeliveryStatus::Success, sender, message: text.to_string(), date_time: time }
}

fn summary(id: &str) -> Conversation {
    Conversation {
        conversation_id: id.to_string(),
        conversation_title: String::new(),
        conversation_start_time: 0,
        conversation_modify_time: 0,
        conversation_records: Vec::new(),
    }
}

fn png() -> EncodedImage {
    EncodedImage { image_type: "image/png".to_string(), image_base64: "AAAA".to_string() }
}

#[test]
fn store_without_tables_refuses_every_call() {
    let mut store = ConversationStore::new();
    assert!(!store.is_ready());
    assert_eq!(query_all(&store).unwrap_err(), StoreError::SchemaMissing);
    assert_eq!(query_detail_by_id(&store, summary("c")).unwrap_err(), StoreError::SchemaMissing);
    assert_eq!(delete_one(&mut store, "c".to_string()).unwrap_err(), StoreError::SchemaMissing);
    assert_eq!(
        modify_title(&mut store, "c".to_string(), "t".to_string()).unwrap_err(),
        StoreError::SchemaMissing
    );
    assert_eq!(
        save_conversation(&mut store, "c".to_string(), "t".to_string(), turn(Sender::Bot, "x", 1), None)
            .unwrap_err(),
        StoreError::SchemaMissing
    );
    assert_eq!(store.upsert_conversation("c".to_string(), "t".to_string(), 1), Err(StoreError::SchemaMissing));
    assert_eq!(store.count(), 0);
}

#[test]
fn created_store_is_empty_and_creating_again_keeps_rows() {
    let mut store = ready_store();
    assert!(store.is_ready());
    assert!(query_all(&store).unwrap().is_empty());
    save_conversation(&mut store, "c".to_string(), "t".to_string(), turn(Sender::Bot, "x", 1), None).unwrap();
    assert!(create_table(&mut store).is_ok());
    assert_eq!(query_all(&store).unwrap().len(), 1);
}

#[test]
fn sort_indices_count_up_from_zero() {
    let mut store = ready_store();
    for n in 0..5 {
        let saved = save_conversation(
            &mut store,
            "c".to_string(),
            "t".to_string(),
            turn(Sender::Bot, &format!("m{}", n), n),
            None,
        )
        .unwrap();
        assert_eq!(saved.created, n == 0);
        assert_eq!(saved.record.unwrap().sort_index, n as u64);
    }
    let detail = query_detail_by_id(&store, summary("c")).unwrap();
    let indices: Vec<u64> = detail.conversation_records.iter().map(|r| r.sort_index).collect();
    assert_eq!(indices, vec![0, 1, 2, 3, 4]);
}

#[test]
fn each_conversation_counts_its_own_records() {
    let mut store = ready_store();
    for id in ["a", "b", "a", "a", "b"] {
        save_conversation(&mut store, id.to_string(), "t".to_string(), turn(Sender::Bot, "x", 1), None).unwrap();
    }
    let a = query_detail_by_id(&store, summary("a")).unwrap();
    let b = query_detail_by_id(&store, summary("b")).unwrap();
    assert_eq!(a.conversation_records.iter().map(|r| r.sort_index).collect::<Vec<_>>(), vec![0, 1, 2]);
    assert_eq!(b.conversation_records.iter().map(|r| r.sort_index).collect::<Vec<_>>(), vec![0, 1]);
    assert!(a.conversation_records.iter().all(|r| r.conversation_id == "a"));
}

#[test]
fn upsert_twice_updates_the_time_without_a_second_row() {
    let mut store = ready_store();
    assert_eq!(store.upsert_conversation("c".to_string(), "first".to_string(), 10), Ok(true));
    assert_eq!(store.upsert_conversation("c".to_string(), "second".to_string(), 20), Ok(false));
    let rows = query_all(&store).unwrap();
    assert_eq!(rows.len(), 1);
    assert_eq!(rows[0].conversation_title, "first");
    assert_eq!(rows[0].conversation_start_time, 10);
    assert_eq!(rows[0].conversation_modify_time, 20);
    assert!(store.contains(&"c".to_string()));
    assert!(!store.contains(&"d".to_string()));
}

#[test]
fn rename_changes_the_title_only() {
    let mut store = ready_store();
    save_conversation(&mut store, "c".to_string(), "".to_string(), turn(Sender::Bot, "x", 7), None).unwrap();
    modify_title(&mut store, "c".to_string(), "Greeting".to_string()).unwrap();
    modify_title(&mut store, "unknown".to_string(), "Other".to_string()).unwrap();
    let rows = query_all(&store).unwrap();
    assert_eq!(rows.len(), 1);
    assert_eq!(rows[0].conversation_title, "Greeting");
    assert_eq!(rows[0].conversation_modify_time, 7);
    assert_eq!(query_detail_by_id(&store, summary("c")).unwrap().conversation_records.len(), 1);
}

#[test]
fn delete_removes_the_conversation_with_its_records() {
    let mut store = ready_store();
    for id in ["a", "b", "c"] {
        save_conversation(&mut store, id.to_string(), id.to_string(), turn(Sender::Bot, "x", 1), None).unwrap();
    }
    delete_one(&mut store, "b".to_string()).unwrap();
    delete_one(&mut store, "nothing".to_string()).unwrap();
    let ids: Vec<String> = query_all(&store).unwrap().into_iter().map(|c| c.conversation_id).collect();
    assert_eq!(ids, vec!["a", "c"]);
    assert!(query_detail_by_id(&store, summary("b")).unwrap().conversation_records.is_empty());
    let again = save_conversation(&mut store, "b".to_string(), "b".to_string(), turn(Sender::Bot, "y", 2), None)
        .unwrap();
    assert!(again.created);
    assert_eq!(again.record.unwrap().sort_index, 0);
}

#[test]
fn summaries_come_without_records_in_order_of_arrival() {
    let mut store = ready_store();
    save_conversation(&mut store, "a".to_string(), "A".to_string(), turn(Sender::Bot, "x", 1), None).unwrap();
    save_conversation(&mut store, "b".to_string(), "B".to_string(), turn(Sender::Bot, "y", 2), None).unwrap();
    let rows = query_all(&store).unwrap();
    assert_eq!(rows.iter().map(|c| c.conversation_title.as_str()).collect::<Vec<_>>(), vec!["A", "B"]);
    assert!(rows.iter().all(|c| c.conversation_records.is_empty()));
    assert_eq!(store.shown_at(0).unwrap().conversation_id, "b");
    assert_eq!(store.shown_at(1).unwrap().conversation_id, "a");
    assert_eq!(store.shown_at(2), None);
}

#[test]
fn detail_keeps_the_summary_that_was_asked_for() {
    let mut store = ready_store();
    save_conversation(&mut store, "a".to_string(), "A".to_string(), turn(Sender::Bot, "x", 1), None).unwrap();
    let asked = Conversation {
        conversation_id: "a".to_string(),
        conversation_title: "shown".to_string(),
        conversation_start_time: 5,
        conversation_modify_time: 6,
        conversation_records: Vec::new(),
    };
    let detail = query_detail_by_id(&store, asked).unwrap();
    assert_eq!(detail.conversation_title, "shown");
    assert_eq!((detail.conversation_start_time, detail.conversation_modify_time), (5, 6));
    assert_eq!(detail.conversation_records.len(), 1);
    assert_eq!(detail.conversation_records[0].record_content, "x");
}

#[test]
fn image_is_stored_with_the_record_of_the_user() {
    let mut store = ready_store();
    let saved = save_conversation_with(
        &mut store,
        "c".to_string(),
        "t".to_string(),
        turn(Sender::User("/tmp/cat.png".to_string()), "look", 3),
        "rec".to_string(),
        "img".to_string(),
        Some(png()),
    )
    .unwrap();
    let expected = MessageRecord {
        conversation_id: "c".to_string(),
        record_id: "rec".to_string(),
        record_content: "look".to_string(),
        record_time: 3,
        record_sender: Sender::User("/tmp/cat.png".to_string()),
        sort_index: 0,
        image_record: Some(ImageRecord {
            image_record_id: "img".to_string(),
            record_id: "rec".to_string(),
            image_path: "/tmp/cat.png".to_string(),
            image_type: "image/png".to_string(),
            image_base64: "AAAA".to_string(),
        }),
    };
    assert_eq!(saved.record, Some(expected.clone()));
    assert_eq!(query_detail_by_id(&store, summary("c")).unwrap().conversation_records, vec![expected]);
}

#[test]
fn image_that_could_not_be_encoded_is_dropped() {
    let mut store = ready_store();
    let saved = save_conversation_with(
        &mut store,
        "c".to_string(),
        "t".to_string(),
        turn(Sender::User("/tmp/missing.png".to_string()), "look", 3),
        "rec".to_string(),
        "img".to_string(),
        None,
    )
    .unwrap();
    let record = saved.record.unwrap();
    assert_eq!(record.image_record, None);
    assert_eq!(record.record_sender, Sender::User(String::new()));
    assert_eq!(record.record_content, "look");
}

#[test]
fn image_without_a_path_is_not_stored() {
    let mut store = ready_store();
    let saved = save_conversation_with(
        &mut store,
        "c".to_string(),
        "t".to_string(),
        turn(Sender::User(String::new()), "hi", 3),
        "rec".to_string(),
        "img".to_string(),
        Some(png()),
    )
    .unwrap();
    assert_eq!(saved.record.unwrap().image_record, None);
}

#[test]
fn boundary_marker_announces_the_conversation_but_stores_no_record() {
    let mut store = ready_store();
    let saved =
        save_conversation(&mut store, "c".to_string(), "t".to_string(), turn(Sender::Split, "", 9), None).unwrap();
    assert!(saved.created);
    assert_eq!(saved.record, None);
    assert_eq!(query_all(&store).unwrap().len(), 1);
    assert!(query_detail_by_id(&store, summary("c")).unwrap().conversation_records.is_empty());
}

#[test]
fn append_to_an_unknown_conversation_changes_nothing() {
    let mut store = ready_store();
    let added = store
        .append_record("c".to_string(), turn(Sender::Bot, "x", 1), "r".to_string(), "i".to_string(), None)
        .unwrap();
    assert_eq!(added, None);
    assert_eq!(store.count(), 0);
}

#[test]
fn generated_ids_have_ten_safe_characters() {
    for _ in 0..50 {
        let id = generate_unique_id();
        assert_eq!(id.chars().count(), 10);
        assert!(id.chars().all(|c| c.is_ascii_alphanumeric() || c == '_' || c == '-'));
    }
    assert_ne!(generate_unique_id(), generate_unique_id());
}

#[test]
fn saved_records_get_generated_ids() {
    let mut store = ready_store();
    let saved = save_conversation(
        &mut store,
        "c".to_string(),
        "t".to_string(),
        turn(Sender::User("/p.png".to_string()), "x", 1),
        Some(png()),
    )
    .unwrap();
    let record = saved.record.unwrap();
    let image = record.image_record.unwrap();
    assert_eq!(record.record_id.len(), 10);
    assert_eq!(image.image_record_id.len(), 10);
    assert_eq!(image.record_id, record.record_id);
    assert_ne!(image.image_record_id, record.record_id);
}

#[test]
fn restore_takes_rows_that_form_a_store() {
    let mut store = ready_store();
    for (id, text) in [("a", "1"), ("b", "2"), ("a", "3")] {
        save_conversation_with(
            &mut store,
            id.to_string(),
            id.to_string(),
            turn(Sender::User("/p.png".to_string()), text, 1),
            format!("r{}", text),
            format!("i{}", text),
            Some(png()),
        )
        .unwrap();
    }
    let mut rows = Vec::new();
    for row in query_all(&store).unwrap() {
        rows.push(query_detail_by_id(&store, row).unwrap());
    }
    let restored = ConversationStore::restore(rows.clone()).unwrap();
    assert!(restored.is_ready());
    let mut again = Vec::new();
    for row in query_all(&restored).unwrap() {
        again.push(query_detail_by_id(&restored, row).unwrap());
    }
    assert_eq!(again, rows);
}

#[test]
fn restore_refuses_rows_that_do_not_form_a_store() {
    let record = |id: &str, index: u64| MessageRecord {
        conversation_id: id.to_string(),
        record_id: format!("r{}", index),
        record_content: "x".to_string(),
        record_time: 1,
        record_sender: Sender::Bot,
        sort_index: index,
        image_record: None,
    };
    let with = |id: &str, records: Vec<MessageRecord>| Conversation { conversation_records: records, ..summary(id) };
    assert!(ConversationStore::restore(vec![with("a", vec![record("a", 0), record("a", 1)])]).is_ok());
    assert_eq!(
        ConversationStore::restore(vec![summary("a"), summary("a")]).unwrap_err(),
        StoreError::Corrupt
    );
    assert_eq!(
        ConversationStore::restore(vec![with("a", vec![record("a", 1)])]).unwrap_err(),
        StoreError::Corrupt
    );
    assert_eq!(
        ConversationStore::restore(vec![with("a", vec![record("a", 0), record("a", 2)])]).unwrap_err(),
        StoreError::Corrupt
    );
    assert_eq!(
        ConversationStore::restore(vec![with("a", vec![record("b", 0)])]).unwrap_err(),
        StoreError::Corrupt
    );
    let marker = MessageRecord { record_sender: Sender::Split, ..record("a", 0) };
    assert_eq!(ConversationStore::restore(vec![with("a", vec![marker])]).unwrap_err(), StoreError::Corrupt);
    let stray = MessageRecord { record_sender: Sender::User("/p.png".to_string()), ..record("a", 0) };
    assert_eq!(ConversationStore::restore(vec![with("a", vec![stray])]).unwrap_err(), StoreError::Corrupt);
}

#[test]
fn journal_lists_the_writes_in_order() {
    let mut store = ConversationStore::new();
    assert!(store.take_journal().is_empty());
    create_table(&mut store).unwrap();
    create_table(&mut store).unwrap();
    let turn = ChatMessage {
        status: DeliveryStatus::Success,
        sender: Sender::Bot,
        message: "x".to_string(),
        date_time: 4,
    };
    let saved = save_conversation_with(
        &mut store,
        "c".to_string(),
        "t".to_string(),
        turn.clone(),
        "r0".to_string(),
        "i0".to_string(),
        None,
    )
    .unwrap();
    save_conversation_with(&mut store, "c".to_string(), "t".to_string(), ChatMessage { date_time: 5, ..turn.clone() }, "r1".to_string(), "i1".to_string(), None)
        .unwrap();
    modify_title(&mut store, "c".to_string(), "T".to_string()).unwrap();
    modify_title(&mut store, "unknown".to_string(), "T".to_string()).unwrap();
    delete_one(&mut store, "unknown".to_string()).unwrap();
    delete_one(&mut store, "c".to_string()).unwrap();
    let journal = store.take_journal();
    assert_eq!(journal.len(), 7);
    assert_eq!(journal[0], StoreWrite::CreateTables);
    assert_eq!(
        journal[1],
        StoreWrite::InsertConversation(Conversation {
            conversation_id: "c".to_string(),
            conversation_title: "t".to_string(),
            conversation_start_time: 4,
            conversation_modify_time: 4,
            conversation_records: Vec::new(),
        })
    );
    assert_eq!(journal[2], StoreWrite::InsertRecord(saved.record.unwrap()));
    assert_eq!(journal[3], StoreWrite::TouchConversation { conversation_id: "c".to_string(), modify_time: 5 });
    assert!(matches!(&journal[4], StoreWrite::InsertRecord(record) if record.sort_index == 1));
    assert_eq!(journal[5], StoreWrite::RenameConversation { conversation_id: "c".to_string(), title: "T".to_string() });
    assert_eq!(journal[6], StoreWrite::DeleteConversation { conversation_id: "c".to_string() });
    assert!(store.take_journal().is_empty());
    assert_eq!(store.count(), 0);
    assert!(store.is_ready());
}
