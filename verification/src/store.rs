//! What the conversation store holds, and the rules by which it changes.
//!
//! [`StoreView`] is the store as plain values: the conversations in the order
//! of their arrival, each with its records in the order of their sort index,
//! and the journal of the changes. Every operation of
//! [`crate::db_utils::ConversationStore`] is one of the functions here.

use vstd::prelude::*;
use crate::message::{ChatMessageView, SenderView};
use crate::record::{ConversationView, EncodedImageView, ImageRecordView, MessageRecordView};

verus! {

/// A [`crate::db_utils::StoreWrite`] with its texts as sequences of characters.
pub enum StoreWriteView {
    CreateTables,
    InsertConversation(ConversationView),
    TouchConversation { conversation_id: Seq<char>, modify_time: i64 },
    InsertRecord(MessageRecordView),
    RenameConversation { conversation_id: Seq<char>, title: Seq<char> },
    DeleteConversation { conversation_id: Seq<char> },
}

/// What a [`crate::db_utils::ConversationStore`] holds.
pub struct StoreView {
    /// Whether the tables have been created.
    pub ready: bool,
    /// The conversations in the order in which they were first stored, each
    /// with its records.
    pub conversations: Seq<ConversationView>,
    /// The changes since the journal was last taken, in their order.
    pub journal: Seq<StoreWriteView>,
}

/// The highest sort index among `records`; zero where there is none.
pub open spec fn highest_sort_index(records: Seq<MessageRecordView>) -> int
    decreases records.len(),
{
    if records.len() == 0 {
        0
    } else if records.len() == 1 {
        records.last().sort_index
    } else {
        let before = highest_sort_index(records.drop_last());
        if before >= records.last().sort_index {
            before
        } else {
            records.last().sort_index
        }
    }
}

/// The sort index of the record that comes after `records`: one more than the
/// highest in use, and zero for the first record.
pub open spec fn next_sort_index(records: Seq<MessageRecordView>) -> int {
    if records.len() == 0 {
        0
    } else {
        highest_sort_index(records) + 1
    }
}

/// Whether the sort indices of `records` count up from zero without a gap.
pub open spec fn gapless(records: Seq<MessageRecordView>) -> bool {
    forall|k: int| 0 <= k < records.len() ==> (#[trigger] records[k]).sort_index == k
}

/// The record under which a turn is stored, or `None` for a boundary marker,
/// which is never stored. An image is stored with the record where the turn
/// names a path and the image could be encoded; otherwise the attachment is
/// dropped and the record names no path.
pub open spec fn record_for(
    conversation_id: Seq<char>,
    message: ChatMessageView,
    sort_index: int,
    record_id: Seq<char>,
    image_record_id: Seq<char>,
    encoded: Option<EncodedImageView>,
) -> Option<MessageRecordView> {
    match message.sender {
        SenderView::Split => None,
        SenderView::Bot => Some(
            MessageRecordView {
                conversation_id,
                record_id,
                record_content: message.message,
                record_time: message.date_time,
                record_sender: SenderView::Bot,
                sort_index,
                image_record: None,
            },
        ),
        SenderView::User(path) => Some(
            MessageRecordView {
                conversation_id,
                record_id,
                record_content: message.message,
                record_time: message.date_time,
                record_sender: if path.len() > 0 && encoded is Some {
                    SenderView::User(path)
                } else {
                    SenderView::User(Seq::empty())
                },
                sort_index,
                image_record: if path.len() > 0 && encoded is Some {
                    Some(
                        ImageRecordView {
                            image_record_id,
                            record_id,
                            image_path: path,
                            image_type: encoded->0.image_type,
                            image_base64: encoded->0.image_base64,
                        },
                    )
                } else {
                    None
                },
            },
        ),
    }
}

impl ConversationView {
    /// Whether the records belong to the conversation, agree with themselves
    /// and carry the sort indices 0, 1, 2 and so on.
    pub open spec fn well_formed(self) -> bool {
        &&& gapless(self.conversation_records)
        &&& forall|k: int|
            0 <= k < self.conversation_records.len() ==> {
                &&& (#[trigger] self.conversation_records[k]).conversation_id
                    == self.conversation_id
                &&& self.conversation_records[k].consistent()
            }
    }
}

impl StoreView {
    /// Whether a conversation with this id is stored.
    pub open spec fn has(self, id: Seq<char>) -> bool {
        exists|i: int|
            0 <= i < self.conversations.len() && (#[trigger] self.conversations[i]).conversation_id
                == id
    }

    /// The place of the conversation with this id, where one is stored.
    pub open spec fn slot(self, id: Seq<char>) -> int {
        choose|i: int|
            0 <= i < self.conversations.len() && (#[trigger] self.conversations[i]).conversation_id
                == id
    }

    /// The conversation with this id, where one is stored.
    pub open spec fn get(self, id: Seq<char>) -> ConversationView {
        self.conversations[self.slot(id)]
    }

    /// The records of the conversation with this id in the order of their
    /// sort index; none where no such conversation is stored.
    pub open spec fn records_of(self, id: Seq<char>) -> Seq<MessageRecordView> {
        if self.has(id) {
            self.get(id).conversation_records
        } else {
            Seq::empty()
        }
    }

    /// The stored conversations without their records.
    pub open spec fn summaries(self) -> Seq<ConversationView> {
        Seq::new(self.conversations.len(), |i: int| self.conversations[i].summary())
    }

    /// The conversation at a place of the list that shows the newest
    /// conversation first, without its records.
    pub open spec fn shown_at(self, place: int) -> Option<ConversationView> {
        if self.ready && 0 <= place < self.conversations.len() {
            Some(self.conversations[self.conversations.len() - 1 - place].summary())
        } else {
            None
        }
    }

    /// The invariant of the store: no id is stored twice, and every
    /// conversation is well formed.
    pub open spec fn wf(self) -> bool {
        &&& forall|i: int, j: int|
            0 <= i < j < self.conversations.len() ==> (#[trigger] self.conversations[i]).conversation_id
                != (#[trigger] self.conversations[j]).conversation_id
        &&& forall|i: int|
            0 <= i < self.conversations.len() ==> (#[trigger] self.conversations[i]).well_formed()
    }

    /// The store after its tables were created: a store that has them stays
    /// as it is.
    pub open spec fn created(self) -> StoreView {
        if self.ready {
            self
        } else {
            StoreView {
                ready: true,
                journal: self.journal.push(StoreWriteView::CreateTables),
                ..self
            }
        }
    }

    /// The store after a conversation was announced: a new conversation is
    /// added at the end with the title and both times set; a known one only
    /// gets a new modification time.
    pub open spec fn upserted(self, id: Seq<char>, title: Seq<char>, time: i64) -> StoreView {
        if self.has(id) {
            StoreView {
                conversations: self.conversations.update(
                    self.slot(id),
                    ConversationView { conversation_modify_time: time, ..self.get(id) },
                ),
                journal: self.journal.push(
                    StoreWriteView::TouchConversation { conversation_id: id, modify_time: time },
                ),
                ..self
            }
        } else {
            let added = ConversationView {
                conversation_id: id,
                conversation_title: title,
                conversation_start_time: time,
                conversation_modify_time: time,
                conversation_records: Seq::empty(),
            };
            StoreView {
                conversations: self.conversations.push(added),
                journal: self.journal.push(StoreWriteView::InsertConversation(added)),
                ..self
            }
        }
    }

    /// The store after `record` was added at the end of its conversation;
    /// unchanged where that conversation is not stored.
    pub open spec fn appended(self, record: MessageRecordView) -> StoreView {
        if self.has(record.conversation_id) {
            let row = self.get(record.conversation_id);
            StoreView {
                conversations: self.conversations.update(
                    self.slot(record.conversation_id),
                    ConversationView {
                        conversation_records: row.conversation_records.push(record),
                        ..row
                    },
                ),
                journal: self.journal.push(StoreWriteView::InsertRecord(record)),
                ..self
            }
        } else {
            self
        }
    }

    /// The record that saving `message` to the conversation adds, if any.
    pub open spec fn saved_record(
        self,
        id: Seq<char>,
        message: ChatMessageView,
        record_id: Seq<char>,
        image_record_id: Seq<char>,
        encoded: Option<EncodedImageView>,
    ) -> Option<MessageRecordView> {
        record_for(
            id,
            message,
            next_sort_index(self.records_of(id)),
            record_id,
            image_record_id,
            encoded,
        )
    }

    /// The store after a turn was saved: the conversation is announced with
    /// the time of the turn, then the record of the turn is added to it.
    pub open spec fn saved(
        self,
        id: Seq<char>,
        title: Seq<char>,
        message: ChatMessageView,
        record_id: Seq<char>,
        image_record_id: Seq<char>,
        encoded: Option<EncodedImageView>,
    ) -> StoreView {
        let announced = self.upserted(id, title, message.date_time);
        match self.saved_record(id, message, record_id, image_record_id, encoded) {
            Some(record) => announced.appended(record),
            None => announced,
        }
    }

    /// The store after the conversation got a new title; nothing else of it
    /// changes, and nothing at all where it is not stored.
    pub open spec fn renamed(self, id: Seq<char>, title: Seq<char>) -> StoreView {
        if self.has(id) {
            StoreView {
                conversations: self.conversations.update(
                    self.slot(id),
                    ConversationView { conversation_title: title, ..self.get(id) },
                ),
                journal: self.journal.push(
                    StoreWriteView::RenameConversation { conversation_id: id, title },
                ),
                ..self
            }
        } else {
            self
        }
    }

    /// The store after the conversation was deleted with all its records.
    pub open spec fn removed(self, id: Seq<char>) -> StoreView {
        if self.has(id) {
            StoreView {
                conversations: self.conversations.remove(self.slot(id)),
                journal: self.journal.push(StoreWriteView::DeleteConversation { conversation_id: id }),
                ..self
            }
        } else {
            self
        }
    }

    /// The store after its journal was taken.
    pub open spec fn journal_taken(self) -> StoreView {
        StoreView { journal: Seq::empty(), ..self }
    }

    /// The store after a change that its journal lists was repeated on it.
    /// This is what a durable copy does with each entry of the journal: it
    /// changes its rows and keeps no journal of its own.
    pub open spec fn repeated(self, write: StoreWriteView) -> StoreView {
        match write {
            StoreWriteView::CreateTables => StoreView { ready: true, ..self },
            StoreWriteView::InsertConversation(conversation) => StoreView {
                conversations: self.conversations.push(conversation),
                ..self
            },
            StoreWriteView::TouchConversation { conversation_id, modify_time } => if self.has(
                conversation_id,
            ) {
                StoreView {
                    conversations: self.conversations.update(
                        self.slot(conversation_id),
                        ConversationView {
                            conversation_modify_time: modify_time,
                            ..self.get(conversation_id)
                        },
                    ),
                    ..self
                }
            } else {
                self
            },
            StoreWriteView::InsertRecord(record) => if self.has(record.conversation_id) {
                let row = self.get(record.conversation_id);
                StoreView {
                    conversations: self.conversations.update(
                        self.slot(record.conversation_id),
                        ConversationView {
                            conversation_records: row.conversation_records.push(record),
                            ..row
                        },
                    ),
                    ..self
                }
            } else {
                self
            },
            StoreWriteView::RenameConversation { conversation_id, title } => if self.has(
                conversation_id,
            ) {
                StoreView {
                    conversations: self.conversations.update(
                        self.slot(conversation_id),
                        ConversationView { conversation_title: title, ..self.get(conversation_id) },
                    ),
                    ..self
                }
            } else {
                self
            },
            StoreWriteView::DeleteConversation { conversation_id } => if self.has(conversation_id) {
                StoreView {
                    conversations: self.conversations.remove(self.slot(conversation_id)),
                    ..self
                }
            } else {
                self
            },
        }
    }

    /// The store after the changes of `writes` were repeated on it, in their
    /// order.
    pub open spec fn repeated_all(self, writes: Seq<StoreWriteView>) -> StoreView
        decreases writes.len(),
    {
        if writes.len() == 0 {
            self
        } else {
            self.repeated_all(writes.drop_last()).repeated(writes.last())
        }
    }

    /// Whether two stores hold the same rows in the same tables, whatever
    /// their journals list.
    pub open spec fn same_rows(self, other: StoreView) -> bool {
        self.ready == other.ready && self.conversations == other.conversations
    }

    /// Whether `self` came from `before` by changes that its journal lists:
    /// its journal is the journal of `before` and further entries, and a
    /// copy of `before` on which these entries are repeated holds the rows
    /// of `self`.
    pub open spec fn mirrors(self, before: StoreView) -> bool {
        &&& before.journal.len() <= self.journal.len()
        &&& self.journal.take(before.journal.len() as int) == before.journal
        &&& before.repeated_all(self.journal.skip(before.journal.len() as int)).same_rows(self)
    }
}

/// In a well-formed store the place of a stored id is the one place that
/// holds it.
pub proof fn lemma_slot_is_unique(store: StoreView, id: Seq<char>, i: int)
    requires
        store.wf(),
        0 <= i < store.conversations.len(),
        store.conversations[i].conversation_id == id,
    ensures
        store.has(id),
        store.slot(id) == i,
        store.get(id) == store.conversations[i],
{
    let j = store.slot(id);
    assert(0 <= j < store.conversations.len() && store.conversations[j].conversation_id == id);
    if i < j {
        assert(store.conversations[i].conversation_id != store.conversations[j].conversation_id);
    } else if j < i {
        assert(store.conversations[j].conversation_id != store.conversations[i].conversation_id);
    }
}

/// Where the sort indices count up from zero, the next index is the number of
/// records.
pub proof fn lemma_next_index_is_count(records: Seq<MessageRecordView>)
    requires
        gapless(records),
    ensures
        next_sort_index(records) == records.len(),
        records.len() > 0 ==> highest_sort_index(records) == records.len() - 1,
    decreases records.len(),
{
    if records.len() > 1 {
        let before = records.drop_last();
        assert forall|k: int| 0 <= k < before.len() implies (#[trigger] before[k]).sort_index
            == k by {
            assert(before[k] == records[k]);
        }
        lemma_next_index_is_count(before);
        assert(records.last() == records[records.len() - 1]);
    } else if records.len() == 1 {
        assert(records.last() == records[0]);
    }
}

/// Two stores that hold the same ids at the same places know the same ids,
/// and where both are well formed they know them at the same places.
pub proof fn lemma_same_ids(a: StoreView, b: StoreView, id: Seq<char>)
    requires
        a.conversations.len() == b.conversations.len(),
        forall|k: int|
            0 <= k < a.conversations.len() ==> (#[trigger] a.conversations[k]).conversation_id == (
            #[trigger] b.conversations[k]).conversation_id,
    ensures
        a.has(id) == b.has(id),
        a.wf() && b.wf() && a.has(id) ==> a.slot(id) == b.slot(id),
{
    if a.has(id) {
        let i = a.slot(id);
        assert(b.conversations[i].conversation_id == id);
        if a.wf() && b.wf() {
            lemma_slot_is_unique(b, id, i);
        }
    }
    if b.has(id) {
        let i = b.slot(id);
        assert(a.conversations[i].conversation_id == id);
    }
}

/// Announcing a conversation keeps the store well formed, makes the id known,
/// and leaves the records of every conversation as they were.
pub proof fn lemma_upserted(store: StoreView, id: Seq<char>, title: Seq<char>, time: i64)
    requires
        store.wf(),
    ensures
        store.upserted(id, title, time).wf(),
        store.upserted(id, title, time).has(id),
        store.upserted(id, title, time).ready == store.ready,
        forall|other: Seq<char>|
            store.upserted(id, title, time).records_of(other) == store.records_of(other),
        forall|other: Seq<char>|
            other != id ==> store.upserted(id, title, time).has(other) == store.has(other),
{
    let after = store.upserted(id, title, time);
    if store.has(id) {
        let i = store.slot(id);
        assert(after.conversations[i].conversation_id == id);
        assert forall|a: int, b: int| 0 <= a < b < after.conversations.len() implies (
        #[trigger] after.conversations[a]).conversation_id != (
        #[trigger] after.conversations[b]).conversation_id by {
            assert(after.conversations[a].conversation_id
                == store.conversations[a].conversation_id);
            assert(after.conversations[b].conversation_id
                == store.conversations[b].conversation_id);
        }
        assert forall|a: int| 0 <= a < after.conversations.len() implies (
        #[trigger] after.conversations[a]).well_formed() by {
            assert(store.conversations[a].well_formed());
        }
        assert forall|other: Seq<char>| after.records_of(other) == store.records_of(other) by {
            lemma_same_ids(store, after, other);
            if store.has(other) {
                let k = store.slot(other);
                assert(after.conversations[k].conversation_records
                    == store.conversations[k].conversation_records);
            }
        }
        assert forall|other: Seq<char>| other != id implies after.has(other) == store.has(
            other,
        ) by {
            lemma_same_ids(store, after, other);
        }
    } else {
        let n = store.conversations.len() as int;
        assert(after.conversations[n].conversation_id == id);
        assert forall|a: int, b: int| 0 <= a < b < after.conversations.len() implies (
        #[trigger] after.conversations[a]).conversation_id != (
        #[trigger] after.conversations[b]).conversation_id by {
            assert(after.conversations[a] == store.conversations[a]);
            if b < n {
                assert(after.conversations[b] == store.conversations[b]);
            }
        }
        assert forall|a: int| 0 <= a < after.conversations.len() implies (
        #[trigger] after.conversations[a]).well_formed() by {
            if a < n {
                assert(after.conversations[a] == store.conversations[a]);
                assert(store.conversations[a].well_formed());
            }
        }
        assert forall|other: Seq<char>| after.records_of(other) == store.records_of(other) by {
            if store.has(other) {
                let k = store.slot(other);
                assert(after.conversations[k] == store.conversations[k]);
                lemma_slot_is_unique(after, other, k);
            } else if after.has(other) {
                let k = after.slot(other);
                if k < n {
                    assert(after.conversations[k] == store.conversations[k]);
                    assert(store.has(other));
                }
                lemma_slot_is_unique(after, other, k);
            }
        }
        assert forall|other: Seq<char>| other != id implies after.has(other) == store.has(
            other,
        ) by {
            if store.has(other) {
                let k = store.slot(other);
                assert(after.conversations[k] == store.conversations[k]);
            }
            if after.has(other) {
                let k = after.slot(other);
                assert(k < n);
                assert(after.conversations[k] == store.conversations[k]);
            }
        }
    }
}

/// Adding a record that carries the next sort index of its conversation keeps
/// the store well formed. The records of that conversation grow by the
/// record; those of every other conversation stay.
pub proof fn lemma_appended(store: StoreView, record: MessageRecordView)
    requires
        store.wf(),
        store.has(record.conversation_id),
        record.sort_index == next_sort_index(store.records_of(record.conversation_id)),
        record.consistent(),
    ensures
        store.appended(record).wf(),
        store.appended(record).ready == store.ready,
        store.appended(record).records_of(record.conversation_id) == store.records_of(
            record.conversation_id,
        ).push(record),
        forall|other: Seq<char>|
            other != record.conversation_id ==> store.appended(record).records_of(other)
                == store.records_of(other),
        forall|other: Seq<char>| store.appended(record).has(other) == store.has(other),
        store.appended(record).conversations.len() == store.conversations.len(),
{
    let id = record.conversation_id;
    let after = store.appended(record);
    let i = store.slot(id);
    let row = store.conversations[i];
    assert(row.well_formed());
    lemma_next_index_is_count(row.conversation_records);
    assert forall|a: int, b: int| 0 <= a < b < after.conversations.len() implies (
    #[trigger] after.conversations[a]).conversation_id != (
    #[trigger] after.conversations[b]).conversation_id by {
        assert(after.conversations[a].conversation_id == store.conversations[a].conversation_id);
        assert(after.conversations[b].conversation_id == store.conversations[b].conversation_id);
    }
    assert forall|a: int| 0 <= a < after.conversations.len() implies (
    #[trigger] after.conversations[a]).well_formed() by {
        assert(store.conversations[a].well_formed());
        if a == i {
            let grown = after.conversations[a].conversation_records;
            assert forall|k: int| 0 <= k < grown.len() implies {
                &&& (#[trigger] grown[k]).sort_index == k
                &&& grown[k].conversation_id == id
                &&& grown[k].consistent()
            } by {
                if k < row.conversation_records.len() {
                    assert(grown[k] == row.conversation_records[k]);
                }
            }
        }
    }
    assert forall|other: Seq<char>| after.has(other) == store.has(other) by {
        lemma_same_ids(store, after, other);
    }
    lemma_same_ids(store, after, id);
    assert forall|other: Seq<char>| other != id implies after.records_of(other)
        == store.records_of(other) by {
        lemma_same_ids(store, after, other);
        if store.has(other) {
            let k = store.slot(other);
            assert(k != i);
        }
    }
}

/// Giving a conversation a new title keeps the store well formed and changes
/// no record.
pub proof fn lemma_renamed(store: StoreView, id: Seq<char>, title: Seq<char>)
    requires
        store.wf(),
    ensures
        store.renamed(id, title).wf(),
        store.renamed(id, title).ready == store.ready,
        store.renamed(id, title).conversations.len() == store.conversations.len(),
        forall|other: Seq<char>| store.renamed(id, title).has(other) == store.has(other),
        forall|other: Seq<char>|
            store.renamed(id, title).records_of(other) == store.records_of(other),
        store.has(id) ==> store.renamed(id, title).get(id).conversation_title == title,
{
    let after = store.renamed(id, title);
    if store.has(id) {
        let i = store.slot(id);
        assert forall|a: int, b: int| 0 <= a < b < after.conversations.len() implies (
        #[trigger] after.conversations[a]).conversation_id != (
        #[trigger] after.conversations[b]).conversation_id by {
            assert(after.conversations[a].conversation_id
                == store.conversations[a].conversation_id);
            assert(after.conversations[b].conversation_id
                == store.conversations[b].conversation_id);
        }
        assert forall|a: int| 0 <= a < after.conversations.len() implies (
        #[trigger] after.conversations[a]).well_formed() by {
            assert(store.conversations[a].well_formed());
        }
        assert forall|other: Seq<char>| after.has(other) == store.has(other) by {
            lemma_same_ids(store, after, other);
        }
        assert forall|other: Seq<char>| after.records_of(other) == store.records_of(other) by {
            lemma_same_ids(store, after, other);
            if store.has(other) {
                let k = store.slot(other);
                assert(after.conversations[k].conversation_records
                    == store.conversations[k].conversation_records);
            }
        }
        lemma_same_ids(store, after, id);
    }
}

/// Deleting a conversation keeps the store well formed, makes the id unknown
/// and leaves every other conversation as it was.
pub proof fn lemma_removed(store: StoreView, id: Seq<char>)
    requires
        store.wf(),
    ensures
        store.removed(id).wf(),
        store.removed(id).ready == store.ready,
        !store.removed(id).has(id),
        store.removed(id).records_of(id).len() == 0,
        forall|other: Seq<char>|
            other != id ==> store.removed(id).has(other) == store.has(other)
                && store.removed(id).records_of(other) == store.records_of(other),
{
    let after = store.removed(id);
    if store.has(id) {
        let i = store.slot(id);
        let origin = |k: int| if k < i { k } else { k + 1 };
        assert forall|k: int| 0 <= k < after.conversations.len() implies (
        #[trigger] after.conversations[k]) == store.conversations[origin(k)] by {}
        assert forall|a: int, b: int| 0 <= a < b < after.conversations.len() implies (
        #[trigger] after.conversations[a]).conversation_id != (
        #[trigger] after.conversations[b]).conversation_id by {
            assert(after.conversations[a] == store.conversations[origin(a)]);
            assert(after.conversations[b] == store.conversations[origin(b)]);
        }
        assert forall|a: int| 0 <= a < after.conversations.len() implies (
        #[trigger] after.conversations[a]).well_formed() by {
            assert(after.conversations[a] == store.conversations[origin(a)]);
            assert(store.conversations[origin(a)].well_formed());
        }
        if after.has(id) {
            let k = after.slot(id);
            assert(after.conversations[k] == store.conversations[origin(k)]);
            lemma_slot_is_unique(store, id, origin(k));
        }
        assert forall|other: Seq<char>| other != id implies after.has(other) == store.has(other)
            && after.records_of(other) == store.records_of(other) by {
            if store.has(other) {
                let k = store.slot(other);
                assert(k != i);
                let moved = if k < i { k } else { k - 1 };
                assert(after.conversations[moved] == store.conversations[origin(moved)]);
                lemma_slot_is_unique(after, other, moved);
            }
            if after.has(other) {
                let k = after.slot(other);
                assert(after.conversations[k] == store.conversations[origin(k)]);
                lemma_slot_is_unique(store, other, origin(k));
            }
        }
    } else {
        assert(after == store);
    }
}

} // verus!
