//! The conversation store: conversations, their records in order, and the
//! images of the records.
//!
//! The store is a value. It notes every change in a journal, and the
//! program around the library keeps a durable copy by repeating there what
//! the journal lists.

use vstd::prelude::*;
use crate::message::{lemma_views_push, views, ChatMessage, Sender};
use crate::record::{
    conversation_view, copy_records, encoded_view, Conversation, ConversationView, EncodedImage,
    ImageRecord, MessageRecord, MessageRecordView,
};
use crate::store::{
    gapless, highest_sort_index, lemma_appended, lemma_next_index_is_count, lemma_removed,
    lemma_renamed, lemma_slot_is_unique, lemma_upserted, next_sort_index, StoreView, StoreWriteView,
};
use crate::text::{copy_of, is_blank};

verus! {

/// Why the store refused a call.
#[derive(Clone, Copy, PartialEq, Eq, Structural, Debug)]
pub enum StoreError {
    /// The tables have not been created.
    SchemaMissing,
    /// The rows handed in do not form a store: an id occurs twice, a sort
    /// index is out of place, or a record disagrees with itself.
    Corrupt,
}

/// A change of the store, as a durable copy of the store has to repeat it.
#[derive(Debug, PartialEq, Eq)]
pub enum StoreWrite {
    /// The tables were created.
    CreateTables,
    /// A conversation was added; it comes without records.
    InsertConversation(Conversation),
    /// A conversation got a new modification time.
    TouchConversation { conversation_id: String, modify_time: i64 },
    /// A record was added at the end of its conversation, with its image if
    /// it has one.
    InsertRecord(MessageRecord),
    /// A conversation got a new title.
    RenameConversation { conversation_id: String, title: String },
    /// A conversation was deleted with its records and their images.
    DeleteConversation { conversation_id: String },
}

impl View for StoreWrite {
    type V = StoreWriteView;

    open spec fn view(&self) -> StoreWriteView {
        match self {
            StoreWrite::CreateTables => StoreWriteView::CreateTables,
            StoreWrite::InsertConversation(conversation) => StoreWriteView::InsertConversation(
                conversation@,
            ),
            StoreWrite::TouchConversation { conversation_id, modify_time } => {
                StoreWriteView::TouchConversation {
                    conversation_id: conversation_id@,
                    modify_time: *modify_time,
                }
            },
            StoreWrite::InsertRecord(record) => StoreWriteView::InsertRecord(record@),
            StoreWrite::RenameConversation { conversation_id, title } => {
                StoreWriteView::RenameConversation { conversation_id: conversation_id@, title: title@ }
            },
            StoreWrite::DeleteConversation { conversation_id } => {
                StoreWriteView::DeleteConversation { conversation_id: conversation_id@ }
            },
        }
    }
}

/// The conversation store.
#[derive(Debug)]
pub struct ConversationStore {
    ready: bool,
    conversations: Vec<Conversation>,
    journal: Vec<StoreWrite>,
}

impl View for ConversationStore {
    type V = StoreView;

    closed spec fn view(&self) -> StoreView {
        StoreView {
            ready: self.ready,
            conversations: views(self.conversations@),
            journal: views(self.journal@),
        }
    }
}

/// What a call of [`save_conversation`] wrote.
#[derive(Debug, PartialEq, Eq)]
pub struct Saved {
    /// Whether the conversation was new to the store.
    pub created: bool,
    /// The record that was added; `None` for a boundary marker.
    pub record: Option<MessageRecord>,
}

/// The view of a record that may be missing.
pub open spec fn record_view(record: Option<MessageRecord>) -> Option<MessageRecordView> {
    match record {
        Some(record) => Some(record@),
        None => None,
    }
}

impl ConversationStore {
    /// Whether the store keeps its invariant.
    pub open spec fn wf(&self) -> bool {
        self@.wf()
    }

    /// A store without tables.
    pub fn new() -> (store: ConversationStore)
        ensures
            store.wf(),
            store@ == (StoreView {
                ready: false,
                conversations: Seq::empty(),
                journal: Seq::empty(),
            }),
    {
        let store = ConversationStore {
            ready: false,
            conversations: Vec::new(),
            journal: Vec::new(),
        };
        assert(store@.conversations =~= Seq::empty());
        assert(store@.journal =~= Seq::empty());
        store
    }

    /// The store that holds the given conversations with their records, with
    /// its tables created. Rows that do not form a store are refused.
    pub fn restore(conversations: Vec<Conversation>) -> (result: Result<ConversationStore, StoreError>)
        ensures
            result is Ok <==> (StoreView {
                ready: true,
                conversations: views(conversations@),
                journal: Seq::empty(),
            }).wf(),
            result is Ok ==> result->Ok_0.wf() && result->Ok_0@ == (StoreView {
                ready: true,
                conversations: views(conversations@),
                journal: Seq::empty(),
            }),
            result is Err ==> result->Err_0 == StoreError::Corrupt,
    {
        let ghost rows = views(conversations@);
        let ghost wanted = StoreView { ready: true, conversations: rows, journal: Seq::empty() };
        let mut i: usize = 0;
        while i < conversations.len()
            invariant
                i <= conversations.len(),
                rows == views(conversations@),
                wanted == (StoreView { ready: true, conversations: rows, journal: Seq::empty() }),
                forall|a: int| 0 <= a < i ==> (#[trigger] rows[a]).well_formed(),
                forall|a: int, b: int|
                    0 <= a < b < i ==> (#[trigger] rows[a]).conversation_id != (
                    #[trigger] rows[b]).conversation_id,
            decreases conversations.len() - i,
        {
            if !conversation_well_formed(&conversations[i]) {
                assert(!wanted.conversations[i as int].well_formed());
                return Err(StoreError::Corrupt);
            }
            let mut j: usize = 0;
            while j < i
                invariant
                    j <= i,
                    i < conversations.len(),
                    rows == views(conversations@),
                    wanted == (StoreView { ready: true, conversations: rows, journal: Seq::empty() }),
                    forall|a: int|
                        0 <= a < j ==> (#[trigger] rows[a]).conversation_id
                            != rows[i as int].conversation_id,
                decreases i - j,
            {
                if conversations[j].conversation_id == conversations[i].conversation_id {
                    assert(wanted.conversations[j as int].conversation_id
                        == wanted.conversations[i as int].conversation_id);
                    return Err(StoreError::Corrupt);
                }
                j = j + 1;
            }
            i = i + 1;
        }
        let store = ConversationStore { ready: true, conversations, journal: Vec::new() };
        assert(store@.journal =~= Seq::empty());
        Ok(store)
    }

    /// Whether the tables have been created.
    pub fn is_ready(&self) -> (ready: bool)
        ensures
            ready == self@.ready,
    {
        self.ready
    }

    /// The number of stored conversations.
    pub fn count(&self) -> (count: usize)
        ensures
            count == self@.conversations.len(),
    {
        self.conversations.len()
    }

    /// Whether a conversation with this id is stored.
    pub fn contains(&self, id: &String) -> (known: bool)
        requires
            self.wf(),
        ensures
            known == self@.has(id@),
    {
        self.find(id).is_some()
    }

    /// The conversation at a place of the list that shows the newest
    /// conversation first, without its records.
    pub fn shown_at(&self, place: usize) -> (summary: Option<Conversation>)
        ensures
            conversation_view(summary) == self@.shown_at(place as int),
    {
        if self.ready && place < self.conversations.len() {
            let row = &self.conversations[self.conversations.len() - 1 - place];
            let summary = Conversation {
                conversation_id: copy_of(&row.conversation_id),
                conversation_title: copy_of(&row.conversation_title),
                conversation_start_time: row.conversation_start_time,
                conversation_modify_time: row.conversation_modify_time,
                conversation_records: Vec::new(),
            };
            assert(summary@.conversation_records =~= Seq::empty());
            Some(summary)
        } else {
            None
        }
    }

    /// The place of the conversation with this id, if one is stored.
    fn find(&self, id: &String) -> (found: Option<usize>)
        requires
            self.wf(),
        ensures
            found is Some <==> self@.has(id@),
            found is Some ==> found->0 < self@.conversations.len() && found->0 == self@.slot(id@),
    {
        let mut i: usize = 0;
        while i < self.conversations.len()
            invariant
                self.wf(),
                i <= self.conversations.len(),
                forall|j: int| 0 <= j < i ==> (#[trigger] self@.conversations[j]).conversation_id != id@,
            decreases self.conversations.len() - i,
        {
            if self.conversations[i].conversation_id == *id {
                proof {
                    assert(self@.conversations[i as int].conversation_id == id@);
                    lemma_slot_is_unique(self@, id@, i as int);
                }
                return Some(i);
            }
            i = i + 1;
        }
        None
    }

    /// Announces a conversation: adds it with the title and both times set to
    /// `time` where the id is new, and otherwise only sets its modification
    /// time. Returns whether the conversation was added.
    pub fn upsert_conversation(&mut self, id: String, title: String, time: i64) -> (result: Result<
        bool,
        StoreError,
    >)
        requires
            old(self).wf(),
        ensures
            final(self).wf(),
            !old(self)@.ready ==> result == Err::<bool, StoreError>(StoreError::SchemaMissing)
                && final(self)@ == old(self)@,
            old(self)@.ready ==> result == Ok::<bool, StoreError>(!old(self)@.has(id@))
                && final(self)@ == old(self)@.upserted(id@, title@, time),
    {
        if !self.ready {
            return Err(StoreError::SchemaMissing);
        }
        proof {
            lemma_upserted(self@, id@, title@, time);
        }
        match self.find(&id) {
            Some(i) => {
                let mut row = self.conversations.remove(i);
                row.conversation_modify_time = time;
                self.conversations.insert(i, row);
                let write = StoreWrite::TouchConversation { conversation_id: id, modify_time: time };
                proof {
                    lemma_views_push(self.journal@, write);
                }
                self.journal.push(write);
                assert(self@.conversations =~= old(self)@.upserted(id@, title@, time).conversations);
                Ok(false)
            },
            None => {
                let row = Conversation {
                    conversation_id: id,
                    conversation_title: title,
                    conversation_start_time: time,
                    conversation_modify_time: time,
                    conversation_records: Vec::new(),
                };
                let write = StoreWrite::InsertConversation(row.clone());
                proof {
                    lemma_views_push(self.conversations@, row);
                    lemma_views_push(self.journal@, write);
                    assert(row@.conversation_records =~= Seq::empty());
                }
                self.conversations.push(row);
                self.journal.push(write);
                Ok(true)
            },
        }
    }

    /// Adds the record of a turn at the end of a stored conversation, under
    /// the next sort index of that conversation, and returns the record.
    /// Nothing is added for a boundary marker or where the conversation is
    /// not stored.
    pub fn append_record(
        &mut self,
        conversation_id: String,
        message: ChatMessage,
        record_id: String,
        image_record_id: String,
        encoded: Option<EncodedImage>,
    ) -> (result: Result<Option<MessageRecord>, StoreError>)
        requires
            old(self).wf(),
        ensures
            final(self).wf(),
            !old(self)@.ready ==> result == Err::<Option<MessageRecord>, StoreError>(
                StoreError::SchemaMissing,
            ) && final(self)@ == old(self)@,
            old(self)@.ready ==> result is Ok && record_view(result->Ok_0) == (if old(self)@.has(
                conversation_id@,
            ) {
                old(self)@.saved_record(
                    conversation_id@,
                    message@,
                    record_id@,
                    image_record_id@,
                    encoded_view(encoded),
                )
            } else {
                None
            }) && final(self)@ == (match record_view(result->Ok_0) {
                Some(record) => old(self)@.appended(record),
                None => old(self)@,
            }),
    {
        if !self.ready {
            return Err(StoreError::SchemaMissing);
        }
        let i = match self.find(&conversation_id) {
            Some(i) => i,
            None => {
                return Ok(None);
            },
        };
        assert(self@.conversations[i as int].well_formed());
        let sort_index = next_index(&self.conversations[i].conversation_records);
        let ChatMessage { status: _, sender, message: content, date_time } = message;
        let record = match sender {
            Sender::Split => {
                return Ok(None);
            },
            Sender::Bot => MessageRecord {
                conversation_id,
                record_id,
                record_content: content,
                record_time: date_time,
                record_sender: Sender::Bot,
                sort_index,
                image_record: None,
            },
            Sender::User(path) => {
                match encoded {
                    Some(image) if !is_blank(&path) => {
                        let EncodedImage { image_type, image_base64 } = image;
                        MessageRecord {
                            conversation_id,
                            record_id: copy_of(&record_id),
                            record_content: content,
                            record_time: date_time,
                            record_sender: Sender::User(copy_of(&path)),
                            sort_index,
                            image_record: Some(
                                ImageRecord {
                                    image_record_id,
                                    record_id,
                                    image_path: path,
                                    image_type,
                                    image_base64,
                                },
                            ),
                        }
                    },
                    _ => MessageRecord {
                        conversation_id,
                        record_id,
                        record_content: content,
                        record_time: date_time,
                        record_sender: Sender::User(String::new()),
                        sort_index,
                        image_record: None,
                    },
                }
            },
        };
        let stored = record.clone();
        proof {
            assert(record@.consistent());
            lemma_appended(self@, record@);
        }
        let mut row = self.conversations.remove(i);
        proof {
            lemma_views_push(row.conversation_records@, record);
        }
        row.conversation_records.push(record);
        self.conversations.insert(i, row);
        let write = StoreWrite::InsertRecord(stored.clone());
        proof {
            lemma_views_push(self.journal@, write);
        }
        self.journal.push(write);
        assert(self@.conversations =~= old(self)@.appended(stored@).conversations);
        Ok(Some(stored))
    }

    /// Takes the journal: returns the changes since it was last taken, in
    /// their order, and starts a new one. A durable copy of the store that
    /// repeats them holds what the store holds.
    pub fn take_journal(&mut self) -> (writes: Vec<StoreWrite>)
        requires
            old(self).wf(),
        ensures
            final(self).wf(),
            views(writes@) == old(self)@.journal,
            final(self)@ == old(self)@.journal_taken(),
    {
        let mut writes: Vec<StoreWrite> = Vec::new();
        assert(views(writes@) =~= Seq::empty());
        core::mem::swap(&mut self.journal, &mut writes);
        assert(self@.conversations == old(self)@.conversations);
        writes
    }
}

/// Whether a record agrees with itself.
fn record_consistent(record: &MessageRecord) -> (ok: bool)
    ensures
        ok == record@.consistent(),
{
    let path_matches = match &record.record_sender {
        Sender::Split => {
            return false;
        },
        Sender::Bot => match &record.image_record {
            Some(image) => is_blank(&image.image_path),
            None => true,
        },
        Sender::User(path) => match &record.image_record {
            Some(image) => *path == image.image_path,
            None => is_blank(path),
        },
    };
    proof {
        let none = Seq::<char>::empty();
        assert forall|text: Seq<char>| text.len() == 0 implies text == none by {
            assert(text =~= none);
        }
    }
    match &record.image_record {
        Some(image) => {
            let linked = image.record_id == record.record_id;
            let named = match &record.record_sender {
                Sender::User(path) => !is_blank(path),
                _ => false,
            };
            path_matches && linked && named
        },
        None => path_matches,
    }
}

/// Whether the records of a conversation belong to it, agree with themselves
/// and carry the sort indices 0, 1, 2 and so on.
fn conversation_well_formed(conversation: &Conversation) -> (ok: bool)
    ensures
        ok == conversation@.well_formed(),
{
    let ghost records = conversation@.conversation_records;
    let mut k: usize = 0;
    while k < conversation.conversation_records.len()
        invariant
            k <= conversation.conversation_records.len(),
            records == conversation@.conversation_records,
            records == views(conversation.conversation_records@),
            forall|j: int|
                0 <= j < k ==> {
                    &&& (#[trigger] records[j]).sort_index == j
                    &&& records[j].conversation_id == conversation@.conversation_id
                    &&& records[j].consistent()
                },
        decreases conversation.conversation_records.len() - k,
    {
        let record = &conversation.conversation_records[k];
        assert(records[k as int] == record@);
        let ok = record.sort_index == k as u64 && record.conversation_id
            == conversation.conversation_id && record_consistent(record);
        if !ok {
            return false;
        }
        k = k + 1;
    }
    true
}

/// The sort index for the record that comes after `records`.
fn next_index(records: &Vec<MessageRecord>) -> (index: u64)
    requires
        gapless(views(records@)),
    ensures
        index == next_sort_index(views(records@)),
        index == records@.len(),
{
    let ghost all = views(records@);
    proof {
        lemma_next_index_is_count(all);
    }
    if records.len() == 0 {
        return 0;
    }
    let mut highest: u64 = records[0].sort_index;
    let mut k: usize = 1;
    assert(all.take(1).last() == all[0]);
    while k < records.len()
        invariant
            1 <= k <= records.len(),
            all == views(records@),
            highest == highest_sort_index(all.take(k as int)),
        decreases records.len() - k,
    {
        proof {
            assert(all.take(k + 1).drop_last() == all.take(k as int));
            assert(all.take(k + 1).last() == all[k as int]);
        }
        if records[k].sort_index > highest {
            highest = records[k].sort_index;
        }
        k = k + 1;
    }
    assert(all.take(k as int) == all);
    highest + 1
}

/// Whether `c` may occur in a generated id: a letter or digit of ASCII, an
/// underscore or a hyphen.
pub open spec fn is_id_char(c: char) -> bool {
    ('a' <= c && c <= 'z') || ('A' <= c && c <= 'Z') || ('0' <= c && c <= '9') || c == '_' || c
        == '-'
}

/// Whether `id` has the shape of a generated id: ten characters, each of
/// which may occur in one.
pub open spec fn is_generated_id(id: Seq<char>) -> bool {
    id.len() == 10 && forall|i: int| 0 <= i < id.len() ==> is_id_char(#[trigger] id[i])
}

/// A fresh random id from `nanoid::format`, called with the generator
/// `nanoid::rngs::default`, the alphabet `nanoid::alphabet::SAFE` and the
/// size 10. Believed of it: the id has ten characters, all from that
/// alphabet. Which characters is left open, so two calls may agree.
#[verifier::external_body]
pub fn generate_unique_id() -> (id: String)
    ensures
        is_generated_id(id@),
{
    nanoid::format(nanoid::rngs::default, &nanoid::alphabet::SAFE, 10)
}

/// Creates the tables of the store. A store that has them keeps them and
/// every row in them.
pub fn create_table(store: &mut ConversationStore) -> (result: Result<(), StoreError>)
    requires
        old(store).wf(),
    ensures
        final(store).wf(),
        result is Ok,
        final(store)@ == old(store)@.created(),
        final(store)@.ready,
        final(store)@.conversations == old(store)@.conversations,
{
    if !store.ready {
        store.ready = true;
        let write = StoreWrite::CreateTables;
        proof {
            lemma_views_push(store.journal@, write);
        }
        store.journal.push(write);
    }
    assert(store@.conversations == old(store)@.conversations);
    Ok(())
}

/// The stored conversations, in the order in which they were first stored,
/// each without its records.
pub fn query_all(store: &ConversationStore) -> (result: Result<Vec<Conversation>, StoreError>)
    requires
        store.wf(),
    ensures
        !store@.ready ==> result is Err && result->Err_0 == StoreError::SchemaMissing,
        store@.ready ==> result is Ok && views(result->Ok_0@) == store@.summaries(),
{
    if !store.ready {
        return Err(StoreError::SchemaMissing);
    }
    let mut summaries: Vec<Conversation> = Vec::new();
    let mut i: usize = 0;
    while i < store.conversations.len()
        invariant
            i <= store.conversations.len(),
            views(summaries@) == store@.summaries().take(i as int),
        decreases store.conversations.len() - i,
    {
        let row = &store.conversations[i];
        let summary = Conversation {
            conversation_id: copy_of(&row.conversation_id),
            conversation_title: copy_of(&row.conversation_title),
            conversation_start_time: row.conversation_start_time,
            conversation_modify_time: row.conversation_modify_time,
            conversation_records: Vec::new(),
        };
        proof {
            lemma_views_push(summaries@, summary);
            assert(summary@.conversation_records =~= Seq::empty());
            assert(summary@ == store@.conversations[i as int].summary());
            assert(store@.summaries().take(i + 1) == store@.summaries().take(i as int).push(
                store@.summaries()[i as int],
            ));
        }
        summaries.push(summary);
        i = i + 1;
    }
    Ok(summaries)
}

/// Loads the records of a conversation: returns `conversation` with the
/// records that the store holds under its id, in the order of their sort
/// index. A conversation that the store does not know comes back without
/// records.
pub fn query_detail_by_id(store: &ConversationStore, conversation: Conversation) -> (result: Result<
    Conversation,
    StoreError,
>)
    requires
        store.wf(),
    ensures
        !store@.ready ==> result is Err && result->Err_0 == StoreError::SchemaMissing,
        store@.ready ==> result is Ok && result->Ok_0@ == (ConversationView {
            conversation_records: store@.records_of(conversation@.conversation_id),
            ..conversation@
        }) && result->Ok_0@.well_formed(),
{
    if !store.ready {
        return Err(StoreError::SchemaMissing);
    }
    let Conversation {
        conversation_id,
        conversation_title,
        conversation_start_time,
        conversation_modify_time,
        conversation_records: _,
    } = conversation;
    let conversation_records = match store.find(&conversation_id) {
        Some(i) => {
            assert(store@.conversations[i as int].well_formed());
            copy_records(&store.conversations[i].conversation_records)
        },
        None => {
            let none: Vec<MessageRecord> = Vec::new();
            assert(views(none@) =~= Seq::empty());
            none
        },
    };
    Ok(
        Conversation {
            conversation_id,
            conversation_title,
            conversation_start_time,
            conversation_modify_time,
            conversation_records,
        },
    )
}

/// Deletes a conversation with all its records and their images. An id that
/// is not stored changes nothing.
pub fn delete_one(store: &mut ConversationStore, conversation_id: String) -> (result: Result<
    (),
    StoreError,
>)
    requires
        old(store).wf(),
    ensures
        final(store).wf(),
        !old(store)@.ready ==> result is Err && result->Err_0 == StoreError::SchemaMissing
            && final(store)@ == old(store)@,
        old(store)@.ready ==> result is Ok && final(store)@ == old(store)@.removed(
            conversation_id@,
        ),
{
    if !store.ready {
        return Err(StoreError::SchemaMissing);
    }
    proof {
        lemma_removed(store@, conversation_id@);
    }
    match store.find(&conversation_id) {
        Some(i) => {
            store.conversations.remove(i);
            let write = StoreWrite::DeleteConversation { conversation_id };
            proof {
                lemma_views_push(store.journal@, write);
            }
            store.journal.push(write);
            assert(store@.conversations =~= old(store)@.removed(conversation_id@).conversations);
        },
        None => {},
    }
    Ok(())
}

/// Gives a stored conversation a new title and changes nothing else. An id
/// that is not stored changes nothing.
pub fn modify_title(store: &mut ConversationStore, conversation_id: String, title: String) -> (result:
    Result<(), StoreError>)
    requires
        old(store).wf(),
    ensures
        final(store).wf(),
        !old(store)@.ready ==> result is Err && result->Err_0 == StoreError::SchemaMissing
            && final(store)@ == old(store)@,
        old(store)@.ready ==> result is Ok && final(store)@ == old(store)@.renamed(
            conversation_id@,
            title@,
        ),
{
    if !store.ready {
        return Err(StoreError::SchemaMissing);
    }
    proof {
        lemma_renamed(store@, conversation_id@, title@);
    }
    match store.find(&conversation_id) {
        Some(i) => {
            let mut row = store.conversations.remove(i);
            row.conversation_title = copy_of(&title);
            store.conversations.insert(i, row);
            let write = StoreWrite::RenameConversation { conversation_id, title };
            proof {
                lemma_views_push(store.journal@, write);
            }
            store.journal.push(write);
            assert(store@.conversations =~= old(store)@.renamed(
                conversation_id@,
                title@,
            ).conversations);
        },
        None => {},
    }
    Ok(())
}

/// Saves a turn under given ids: announces the conversation with the time of
/// the turn, then adds the record of the turn, with its image where the turn
/// names one and `encoded` holds it.
pub fn save_conversation_with(
    store: &mut ConversationStore,
    conversation_id: String,
    conversation_title: String,
    message: ChatMessage,
    record_id: String,
    image_record_id: String,
    encoded: Option<EncodedImage>,
) -> (result: Result<Saved, StoreError>)
    requires
        old(store).wf(),
    ensures
        final(store).wf(),
        !old(store)@.ready ==> result is Err && result->Err_0 == StoreError::SchemaMissing
            && final(store)@ == old(store)@,
        old(store)@.ready ==> result is Ok && final(store)@ == old(store)@.saved(
            conversation_id@,
            conversation_title@,
            message@,
            record_id@,
            image_record_id@,
            encoded_view(encoded),
        ) && result->Ok_0.created == !old(store)@.has(conversation_id@) && record_view(
            result->Ok_0.record,
        ) == old(store)@.saved_record(
            conversation_id@,
            message@,
            record_id@,
            image_record_id@,
            encoded_view(encoded),
        ),
{
    let time = message.date_time;
    proof {
        lemma_upserted(store@, conversation_id@, conversation_title@, time);
    }
    let created = match store.upsert_conversation(
        copy_of(&conversation_id),
        conversation_title,
        time,
    ) {
        Ok(created) => created,
        Err(e) => {
            return Err(e);
        },
    };
    match store.append_record(conversation_id, message, record_id, image_record_id, encoded) {
        Ok(record) => Ok(Saved { created, record }),
        Err(e) => Err(e),
    }
}

/// Saves a turn under fresh ids. See [`save_conversation_with`]; the ids of
/// the record and of its image are generated here.
pub fn save_conversation(
    store: &mut ConversationStore,
    conversation_id: String,
    conversation_title: String,
    message: ChatMessage,
    encoded: Option<EncodedImage>,
) -> (result: Result<Saved, StoreError>)
    requires
        old(store).wf(),
    ensures
        final(store).wf(),
        !old(store)@.ready ==> result is Err && result->Err_0 == StoreError::SchemaMissing
            && final(store)@ == old(store)@,
        old(store)@.ready ==> result is Ok && exists|record_id: Seq<char>, image_record_id: Seq<char>|
            {
                &&& is_generated_id(record_id)
                &&& is_generated_id(image_record_id)
                &&& #[trigger] old(store)@.saved(
                    conversation_id@,
                    conversation_title@,
                    message@,
                    record_id,
                    image_record_id,
                    encoded_view(encoded),
                ) == final(store)@
                &&& record_view(result->Ok_0.record) == old(store)@.saved_record(
                    conversation_id@,
                    message@,
                    record_id,
                    image_record_id,
                    encoded_view(encoded),
                )
            },
        old(store)@.ready ==> result->Ok_0.created == !old(store)@.has(conversation_id@),
{
    let record_id = generate_unique_id();
    let image_record_id = generate_unique_id();
    save_conversation_with(
        store,
        conversation_id,
        conversation_title,
        message,
        record_id,
        image_record_id,
        encoded,
    )
}

} // verus!
