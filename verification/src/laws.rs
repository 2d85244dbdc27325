//! What holds of the store and of the window whatever is done with them.

use vstd::prelude::*;
use crate::history::ImageLookupView;
use crate::key::KeyEvent;
use crate::main_page::{EventView, FreshIdsView};
use crate::message::{has_success, pending_count, ChatMessageView, DeliveryStatus, SenderView};
use crate::record::{ConversationView, EncodedImageView, MessageRecordView};
use crate::session::{bot_turn, lemma_one_pending_at_most, UIView};
use crate::store::{
    gapless, lemma_appended, lemma_next_index_is_count, lemma_same_ids, lemma_slot_is_unique,
    lemma_upserted, next_sort_index, StoreView, StoreWriteView,
};

verus! {

/// The sender under which a turn is stored and comes back: the sender of the
/// turn, without its image path where the image could not be stored.
pub open spec fn stored_sender(sender: SenderView, encoded: Option<EncodedImageView>) -> SenderView {
    match sender {
        SenderView::User(path) => if path.len() > 0 && encoded is Some {
            SenderView::User(path)
        } else {
            SenderView::User(Seq::empty())
        },
        other => other,
    }
}

/// The turn as which a saved turn comes back from the store: the same text
/// and time, the stored sender, and always as succeeded.
pub open spec fn reloaded(turn: ChatMessageView, encoded: Option<EncodedImageView>) -> ChatMessageView {
    ChatMessageView {
        status: DeliveryStatus::Success,
        sender: stored_sender(turn.sender, encoded),
        message: turn.message,
        date_time: turn.date_time,
    }
}

/// The sort indices of a stored conversation are 0, 1, 2 and so on in the
/// order of its records: they start at zero, leave no gap and grow strictly.
pub proof fn lemma_sort_indices_count_up(store: StoreView, id: Seq<char>)
    requires
        store.wf(),
    ensures
        gapless(store.records_of(id)),
        forall|k: int|
            0 <= k < store.records_of(id).len() ==> (#[trigger] store.records_of(id)[k]).sort_index
                == k,
        forall|a: int, b: int|
            0 <= a < b < store.records_of(id).len() ==> (#[trigger] store.records_of(
                id,
            )[a]).sort_index < (#[trigger] store.records_of(id)[b]).sort_index,
{
    if store.has(id) {
        let i = store.slot(id);
        assert(store.conversations[i].well_formed());
    }
}

/// Saving a turn keeps the store well formed. The conversation of the turn
/// is stored afterwards; its records grow by the record of the turn, which
/// carries the number of the records before it as its sort index, or stay as
/// they are for a boundary marker. The records of every other conversation
/// stay as they are.
pub proof fn lemma_saved(
    store: StoreView,
    id: Seq<char>,
    title: Seq<char>,
    message: ChatMessageView,
    record_id: Seq<char>,
    image_record_id: Seq<char>,
    encoded: Option<EncodedImageView>,
)
    requires
        store.wf(),
    ensures
        store.saved(id, title, message, record_id, image_record_id, encoded).wf(),
        store.saved(id, title, message, record_id, image_record_id, encoded).ready == store.ready,
        store.saved(id, title, message, record_id, image_record_id, encoded).has(id),
        !(message.sender is Split) ==> {
            let after = store.saved(id, title, message, record_id, image_record_id, encoded);
            &&& after.records_of(id).len() == store.records_of(id).len() + 1
            &&& after.records_of(id) == store.records_of(id).push(after.records_of(id).last())
            &&& after.records_of(id).last().sort_index == store.records_of(id).len()
            &&& after.records_of(id).last().turn() == reloaded(message, encoded)
        },
        message.sender is Split ==> store.saved(
            id,
            title,
            message,
            record_id,
            image_record_id,
            encoded,
        ).records_of(id) == store.records_of(id),
        forall|other: Seq<char>|
            other != id ==> store.saved(
                id,
                title,
                message,
                record_id,
                image_record_id,
                encoded,
            ).records_of(other) == store.records_of(other),
{
    let announced = store.upserted(id, title, message.date_time);
    lemma_upserted(store, id, title, message.date_time);
    lemma_sort_indices_count_up(store, id);
    lemma_next_index_is_count(store.records_of(id));
    match store.saved_record(id, message, record_id, image_record_id, encoded) {
        Some(record) => {
            assert(announced.records_of(id) == store.records_of(id));
            assert(record.sort_index == next_sort_index(announced.records_of(id)));
            lemma_appended(announced, record);
            let after = announced.appended(record);
            assert(after.records_of(id) == store.records_of(id).push(record));
            assert(after.records_of(id).last() == record);
            assert forall|other: Seq<char>| other != id implies after.records_of(other)
                == store.records_of(other) by {
                assert(announced.records_of(other) == store.records_of(other));
            }
        },
        None => {},
    }
}

/// Announcing a conversation twice adds no second row for it. The second
/// call finds the row of the first, leaves the number of rows and every
/// other row as they are, and changes nothing of the row but its
/// modification time: title, start time and records stay.
pub proof fn lemma_upsert_is_idempotent(
    store: StoreView,
    id: Seq<char>,
    first_title: Seq<char>,
    first_time: i64,
    second_title: Seq<char>,
    second_time: i64,
)
    requires
        store.wf(),
    ensures
        ({
            let once = store.upserted(id, first_title, first_time);
            let twice = once.upserted(id, second_title, second_time);
            &&& twice.wf()
            &&& once.has(id)
            &&& twice.has(id)
            &&& twice.conversations.len() == once.conversations.len()
            &&& twice.slot(id) == once.slot(id)
            &&& twice.get(id) == (ConversationView {
                conversation_modify_time: second_time,
                ..once.get(id)
            })
            &&& forall|k: int|
                0 <= k < once.conversations.len() && k != once.slot(id)
                    ==> #[trigger] twice.conversations[k] == once.conversations[k]
        }),
{
    let once = store.upserted(id, first_title, first_time);
    let twice = once.upserted(id, second_title, second_time);
    lemma_upserted(store, id, first_title, first_time);
    lemma_upserted(once, id, second_title, second_time);
    let i = once.slot(id);
    assert(twice.conversations[i].conversation_id == id);
    lemma_slot_is_unique(twice, id, i);
}

/// The turns of `turns` saved one after the other to the conversation `id`,
/// each under its own ids and with its own image.
pub open spec fn saved_all(
    store: StoreView,
    id: Seq<char>,
    title: Seq<char>,
    turns: Seq<ChatMessageView>,
    ids: Seq<(Seq<char>, Seq<char>)>,
    images: Seq<Option<EncodedImageView>>,
) -> StoreView
    decreases turns.len(),
{
    if turns.len() == 0 {
        store
    } else {
        let n = turns.len() - 1;
        saved_all(store, id, title, turns.drop_last(), ids, images).saved(
            id,
            title,
            turns[n],
            ids[n].0,
            ids[n].1,
            images[n],
        )
    }
}

/// What was saved comes back. After the turns of a transcript were saved to
/// a conversation that the store did not know, the store holds one record
/// for each turn, in their order, and a window that loads the conversation
/// shows for each turn a succeeded turn with the same text and time and the
/// stored sender. The stored sender is the sender of the turn, but for a
/// turn of the user whose image could not be encoded, which comes back
/// without its image path.
pub proof fn lemma_round_trip(
    store: StoreView,
    window: UIView,
    id: Seq<char>,
    title: Seq<char>,
    turns: Seq<ChatMessageView>,
    ids: Seq<(Seq<char>, Seq<char>)>,
    images: Seq<Option<EncodedImageView>>,
    lookups: Seq<ImageLookupView>,
)
    requires
        store.wf(),
        !store.has(id),
        !window.receiving_message,
        ids.len() == turns.len(),
        images.len() == turns.len(),
        forall|i: int| 0 <= i < turns.len() ==> !((#[trigger] turns[i]).sender is Split),
    ensures
        ({
            let after = saved_all(store, id, title, turns, ids, images);
            let loaded = ConversationView {
                conversation_id: id,
                conversation_title: title,
                conversation_start_time: 0,
                conversation_modify_time: 0,
                conversation_records: after.records_of(id),
            };
            let shown = window.switched(loaded, lookups).chat_history;
            &&& after.wf()
            &&& shown.len() == turns.len()
            &&& forall|i: int|
                0 <= i < turns.len() ==> #[trigger] shown[i] == reloaded(turns[i], images[i])
            &&& forall|i: int|
                0 <= i < turns.len() ==> (#[trigger] shown[i]).message == turns[i].message
                    && shown[i].sender.bare() == turns[i].sender.bare()
            &&& forall|i: int|
                0 <= i < turns.len() && (!turns[i].sender.has_image() || images[i] is Some) ==> (
                #[trigger] shown[i]).sender == turns[i].sender
        }),
{
    let after = saved_all(store, id, title, turns, ids, images);
    lemma_saved_all(store, id, title, turns, ids, images);
    let records = after.records_of(id);
    let loaded = ConversationView {
        conversation_id: id,
        conversation_title: title,
        conversation_start_time: 0,
        conversation_modify_time: 0,
        conversation_records: records,
    };
    let shown = window.switched(loaded, lookups).chat_history;
    assert(shown == loaded.turns());
    assert forall|i: int| 0 <= i < turns.len() implies #[trigger] shown[i] == reloaded(
        turns[i],
        images[i],
    ) by {
        assert(shown[i] == records[i].turn());
    }
    assert forall|i: int| 0 <= i < turns.len() implies (#[trigger] shown[i]).message
        == turns[i].message && shown[i].sender.bare() == turns[i].sender.bare() by {
        assert(shown[i] == reloaded(turns[i], images[i]));
    }
    assert forall|i: int|
        0 <= i < turns.len() && (!turns[i].sender.has_image() || images[i] is Some) implies (
    #[trigger] shown[i]).sender == turns[i].sender by {
        assert(shown[i] == reloaded(turns[i], images[i]));
        match turns[i].sender {
            SenderView::User(path) => {
                if path.len() == 0 {
                    assert(path =~= Seq::<char>::empty());
                }
            },
            _ => {},
        }
    }
}

/// Saving turns one after the other keeps the store well formed and stores,
/// for a conversation that was not known, one record for each turn, in
/// their order.
pub proof fn lemma_saved_all(
    store: StoreView,
    id: Seq<char>,
    title: Seq<char>,
    turns: Seq<ChatMessageView>,
    ids: Seq<(Seq<char>, Seq<char>)>,
    images: Seq<Option<EncodedImageView>>,
)
    requires
        store.wf(),
        !store.has(id),
        ids.len() == turns.len(),
        images.len() == turns.len(),
        forall|i: int| 0 <= i < turns.len() ==> !((#[trigger] turns[i]).sender is Split),
    ensures
        saved_all(store, id, title, turns, ids, images).wf(),
        saved_all(store, id, title, turns, ids, images).records_of(id).len() == turns.len(),
        forall|i: int|
            0 <= i < turns.len() ==> (#[trigger] saved_all(
                store,
                id,
                title,
                turns,
                ids,
                images,
            ).records_of(id)[i]).turn() == reloaded(turns[i], images[i]),
        forall|i: int|
            0 <= i < turns.len() ==> (#[trigger] saved_all(
                store,
                id,
                title,
                turns,
                ids,
                images,
            ).records_of(id)[i]).sort_index == i,
    decreases turns.len(),
{
    if turns.len() > 0 {
        let n = turns.len() - 1;
        let before = saved_all(store, id, title, turns.drop_last(), ids.drop_last(), images.drop_last());
        lemma_saved_all_prefix(store, id, title, turns.drop_last(), ids, images);
        assert forall|i: int| 0 <= i < turns.drop_last().len() implies !((
        #[trigger] turns.drop_last()[i]).sender is Split) by {
            assert(turns.drop_last()[i] == turns[i]);
        }
        lemma_saved_all(store, id, title, turns.drop_last(), ids.drop_last(), images.drop_last());
        lemma_saved(before, id, title, turns[n], ids[n].0, ids[n].1, images[n]);
        let after = saved_all(store, id, title, turns, ids, images);
        assert(after == before.saved(id, title, turns[n], ids[n].0, ids[n].1, images[n]));
        lemma_sort_indices_count_up(after, id);
        assert forall|i: int| 0 <= i < turns.len() implies (#[trigger] after.records_of(
            id,
        )[i]).turn() == reloaded(turns[i], images[i]) by {
            if i < n {
                assert(after.records_of(id)[i] == before.records_of(id)[i]);
                assert(turns.drop_last()[i] == turns[i]);
                assert(images.drop_last()[i] == images[i]);
            } else {
                assert(after.records_of(id)[i] == after.records_of(id).last());
            }
        }
    } else {
        assert(store.records_of(id).len() == 0);
    }
}

/// Saving turns reads of the ids and images only those of the turns.
pub proof fn lemma_saved_all_prefix(
    store: StoreView,
    id: Seq<char>,
    title: Seq<char>,
    turns: Seq<ChatMessageView>,
    ids: Seq<(Seq<char>, Seq<char>)>,
    images: Seq<Option<EncodedImageView>>,
)
    requires
        turns.len() < ids.len(),
        turns.len() < images.len(),
    ensures
        saved_all(store, id, title, turns, ids, images) == saved_all(
            store,
            id,
            title,
            turns,
            ids.drop_last(),
            images.drop_last(),
        ),
    decreases turns.len(),
{
    if turns.len() > 0 {
        lemma_saved_all_prefix(store, id, title, turns.drop_last(), ids, images);
        lemma_saved_all_prefix(
            store,
            id,
            title,
            turns.drop_last(),
            ids.drop_last(),
            images.drop_last(),
        );
        lemma_saved_all_prefix_twice(store, id, title, turns.drop_last(), ids, images);
    }
}

/// Saving turns reads of the ids and images only those of the turns, also
/// where two more are at hand.
proof fn lemma_saved_all_prefix_twice(
    store: StoreView,
    id: Seq<char>,
    title: Seq<char>,
    turns: Seq<ChatMessageView>,
    ids: Seq<(Seq<char>, Seq<char>)>,
    images: Seq<Option<EncodedImageView>>,
)
    requires
        turns.len() + 1 < ids.len(),
        turns.len() + 1 < images.len(),
    ensures
        saved_all(store, id, title, turns, ids, images) == saved_all(
            store,
            id,
            title,
            turns,
            ids.drop_last().drop_last(),
            images.drop_last().drop_last(),
        ),
    decreases turns.len(),
{
    if turns.len() > 0 {
        lemma_saved_all_prefix_twice(store, id, title, turns.drop_last(), ids, images);
    }
}

/// A turn of `after` that succeeded is a turn of `before`, and the other
/// way round, where both hold the same turns but for turns that did not
/// succeed.
proof fn lemma_same_successes(before: Seq<ChatMessageView>, after: Seq<ChatMessageView>)
    requires
        forall|i: int|
            0 <= i < after.len() && (#[trigger] after[i]).status == DeliveryStatus::Success
                ==> i < before.len() && before[i].status == DeliveryStatus::Success,
        forall|i: int|
            0 <= i < before.len() && (#[trigger] before[i]).status == DeliveryStatus::Success
                ==> i < after.len() && after[i].status == DeliveryStatus::Success,
    ensures
        has_success(before) == has_success(after),
{
    if has_success(after) {
        let k = choose|k: int|
            0 <= k < after.len() && (#[trigger] after[k]).status == DeliveryStatus::Success;
        assert(before[k].status == DeliveryStatus::Success);
    }
    if has_success(before) {
        let k = choose|k: int|
            0 <= k < before.len() && (#[trigger] before[k]).status == DeliveryStatus::Success;
        assert(after[k].status == DeliveryStatus::Success);
    }
}

/// The window starts well formed, with no turn that waits for its reply,
/// and without an id, as no exchange has succeeded.
pub proof fn lemma_initial()
    ensures
        UIView::initial().wf(),
        UIView::initial().id_tells_success(),
        pending_count(UIView::initial().chat_history) == 0,
{
    lemma_one_pending_at_most(UIView::initial());
}

/// Submitting keeps the window well formed, so that at most one turn waits
/// for its reply afterwards, and it gives the conversation no id.
pub proof fn lemma_submitted(window: UIView, now: i64)
    requires
        window.wf(),
    ensures
        window.submitted(now).wf(),
        pending_count(window.submitted(now).chat_history) <= 1,
        window.submitted(now).conversation_id == window.conversation_id,
        window.id_tells_success() ==> window.submitted(now).id_tells_success(),
{
    let after = window.submitted(now);
    if window.accepts_submit() && window.gemini is Some {
        let before = window.chat_history;
        let turns = after.chat_history;
        assert(turns.last() == turns[turns.len() - 1]);
        assert forall|i: int| 0 <= i && i + 1 < turns.len() implies (#[trigger] turns[i]).status
            != DeliveryStatus::Pending by {
            assert(turns[i] == before[i]);
            if i + 1 == before.len() {
                assert(before[i] == before.last());
            }
        }
        assert forall|i: int|
            0 <= i < turns.len() && (#[trigger] turns[i]).status == DeliveryStatus::Success implies i
            < before.len() && before[i].status == DeliveryStatus::Success by {
            if i < before.len() {
                assert(turns[i] == before[i]);
            }
        }
        assert forall|i: int|
            0 <= i < before.len() && (#[trigger] before[i]).status
                == DeliveryStatus::Success implies i < turns.len() && turns[i].status
            == DeliveryStatus::Success by {
            assert(turns[i] == before[i]);
        }
        lemma_same_successes(before, turns);
    }
    lemma_one_pending_at_most(after);
}

/// Completing an exchange keeps the window well formed, and afterwards no
/// turn waits for its reply. An error gives the conversation no id and
/// leaves the store as it is. An answer gives the conversation an id if it
/// had none, provided that the fresh id is not empty.
pub proof fn lemma_completed(
    window: UIView,
    store: StoreView,
    reply: Result<Seq<char>, Seq<char>>,
    encoded: Option<EncodedImageView>,
    ids: FreshIdsView,
    now: i64,
)
    requires
        window.wf(),
    ensures
        window.completed(reply, encoded, ids, now).wf(),
        window.receiving_message ==> pending_count(
            window.completed(reply, encoded, ids, now).chat_history,
        ) == 0,
        reply is Err ==> window.persisted(store, reply, encoded, ids, now) == store
            && window.completed(reply, encoded, ids, now).conversation_id
            == window.conversation_id,
        window.receiving_message && reply is Ok && ids.conversation_id.len() > 0
            ==> window.completed(reply, encoded, ids, now).conversation_id.len() > 0,
        window.id_tells_success() && ids.conversation_id.len() > 0 ==> window.completed(
            reply,
            encoded,
            ids,
            now,
        ).id_tells_success(),
{
    let after = window.completed(reply, encoded, ids, now);
    if window.receiving_message {
        let before = window.chat_history;
        let turns = after.chat_history;
        assert(before.last() == before[before.len() - 1]);
        assert(turns.last() == turns[turns.len() - 1]);
        match reply {
            Ok(response) => {
                assert forall|i: int| 0 <= i && i + 1 < turns.len() implies (
                #[trigger] turns[i]).status != DeliveryStatus::Pending by {
                    if i + 2 < turns.len() {
                        assert(turns[i] == before[i]);
                    }
                }
                assert(turns[turns.len() - 1].status == DeliveryStatus::Success);
            },
            Err(message) => {
                assert forall|i: int| 0 <= i && i + 1 < turns.len() implies (
                #[trigger] turns[i]).status != DeliveryStatus::Pending by {
                    assert(turns[i] == before[i]);
                }
                assert forall|i: int|
                    0 <= i < turns.len() && (#[trigger] turns[i]).status
                        == DeliveryStatus::Success implies i < before.len() && before[i].status
                    == DeliveryStatus::Success by {
                    if i + 1 < turns.len() {
                        assert(turns[i] == before[i]);
                    }
                }
                assert forall|i: int|
                    0 <= i < before.len() && (#[trigger] before[i]).status
                        == DeliveryStatus::Success implies i < turns.len() && turns[i].status
                    == DeliveryStatus::Success by {
                    if i + 1 < before.len() {
                        assert(turns[i] == before[i]);
                    }
                }
                lemma_same_successes(before, turns);
            },
        }
        lemma_one_pending_at_most(after);
    }
}

/// An exchange that succeeded stores two records, the turn of the user and
/// then the turn of the model, at the end of the conversation and under the
/// next two sort indices. The store stays well formed, and the records of
/// every other conversation stay as they are.
pub proof fn lemma_success_stores_exchange(
    window: UIView,
    store: StoreView,
    response: Seq<char>,
    encoded: Option<EncodedImageView>,
    ids: FreshIdsView,
    now: i64,
)
    requires
        window.wf(),
        window.receiving_message,
        store.wf(),
        store.ready,
    ensures
        ({
            let id = window.active_id(ids);
            let after = window.persisted(store, Ok(response), encoded, ids, now);
            let n = store.records_of(id).len() as int;
            &&& after.wf()
            &&& after.has(id)
            &&& after.records_of(id).len() == n + 2
            &&& after.records_of(id).take(n) == store.records_of(id)
            &&& after.records_of(id)[n].sort_index == n
            &&& after.records_of(id)[n].turn() == reloaded(window.user_turn(), encoded)
            &&& after.records_of(id)[n + 1].sort_index == n + 1
            &&& after.records_of(id)[n + 1].turn() == bot_turn(response, now)
            &&& forall|other: Seq<char>|
                other != id ==> after.records_of(other) == store.records_of(other)
        }),
{
    let id = window.active_id(ids);
    let first = store.saved(
        id,
        window.title,
        window.user_turn(),
        ids.user_record_id,
        ids.user_image_record_id,
        encoded,
    );
    lemma_saved(
        store,
        id,
        window.title,
        window.user_turn(),
        ids.user_record_id,
        ids.user_image_record_id,
        encoded,
    );
    lemma_saved(
        first,
        id,
        window.title,
        bot_turn(response, now),
        ids.bot_record_id,
        ids.bot_image_record_id,
        None,
    );
    let after = window.persisted(store, Ok(response), encoded, ids, now);
    let n = store.records_of(id).len() as int;
    assert(after.records_of(id)[n] == first.records_of(id).last());
    assert(after.records_of(id)[n + 1] == after.records_of(id).last());
    assert(after.records_of(id).take(n) =~= store.records_of(id));
}

/// Starting a new conversation keeps the window well formed and leaves it
/// without transcript, id and title, with focus on the input line.
pub proof fn lemma_renewed(window: UIView)
    requires
        window.wf(),
    ensures
        window.renewed().wf(),
        window.renewed().id_tells_success(),
        pending_count(window.renewed().chat_history) == 0,
{
    lemma_one_pending_at_most(window.renewed());
}

/// Loading a stored conversation keeps the window well formed. The
/// conversation has an id exactly if an exchange of it has succeeded, as
/// long as the loaded conversation has an id exactly if it has records.
pub proof fn lemma_switched(window: UIView, conversation: ConversationView, lookups: Seq<ImageLookupView>)
    requires
        window.wf(),
    ensures
        window.switched(conversation, lookups).wf(),
        pending_count(window.switched(conversation, lookups).chat_history) <= 1,
        window.receiving_message && window.id_tells_success() ==> window.switched(
            conversation,
            lookups,
        ).id_tells_success(),
        !window.receiving_message && (conversation.conversation_id.len() > 0
            <==> conversation.conversation_records.len() > 0) ==> window.switched(
            conversation,
            lookups,
        ).id_tells_success(),
{
    let after = window.switched(conversation, lookups);
    if !window.receiving_message {
        let shown = conversation.turns();
        if shown.len() > 0 {
            assert(shown[0].status == DeliveryStatus::Success);
            assert(shown.last() == shown[shown.len() - 1]);
        }
    }
    lemma_one_pending_at_most(after);
}

/// A key event keeps the window well formed, so that at most one turn waits
/// for its reply afterwards, and it keeps the rule that the conversation has
/// an id exactly if an exchange of it has succeeded.
pub proof fn lemma_after_key(window: UIView, key: KeyEvent, store: StoreView, now: i64)
    requires
        window.wf(),
    ensures
        window.after_key(key, store, now).wf(),
        pending_count(window.after_key(key, store, now).chat_history) <= 1,
        window.id_tells_success() ==> window.after_key(key, store, now).id_tells_success(),
{
    let after = window.after_key(key, store, now);
    lemma_renewed(window);
    lemma_renewed(window.with_delete_popup(None));
    lemma_renewed(
        window.with_delete_popup(None).selecting(
            window.with_delete_popup(None).selection_after_delete(store.conversations.len() as int),
        ),
    );
    lemma_submitted(window.without_status(key), now);
    lemma_one_pending_at_most(after);
}

/// Repeating changes one list after another is repeating the two lists as
/// one.
pub proof fn lemma_repeated_all_joins(
    store: StoreView,
    first: Seq<StoreWriteView>,
    second: Seq<StoreWriteView>,
)
    ensures
        store.repeated_all(first + second) == store.repeated_all(first).repeated_all(second),
    decreases second.len(),
{
    if second.len() == 0 {
        assert(first + second == first);
    } else {
        assert((first + second).drop_last() == first + second.drop_last());
        assert((first + second).last() == second.last());
        lemma_repeated_all_joins(store, first, second.drop_last());
    }
}

/// Repeating one change is repeating the list that holds it alone.
proof fn lemma_repeated_once(store: StoreView, write: StoreWriteView)
    ensures
        store.repeated_all(seq![write]) == store.repeated(write),
{
    assert(seq![write].drop_last() == Seq::<StoreWriteView>::empty());
    assert(seq![write].last() == write);
    assert(store.repeated_all(Seq::<StoreWriteView>::empty()) == store);
}

/// Repeating changes looks at the rows only: on stores with the same rows
/// it gives stores with the same rows.
proof fn lemma_repeated_reads_rows(a: StoreView, b: StoreView, writes: Seq<StoreWriteView>)
    requires
        a.same_rows(b),
    ensures
        a.repeated_all(writes).same_rows(b.repeated_all(writes)),
    decreases writes.len(),
{
    if writes.len() > 0 {
        lemma_repeated_reads_rows(a, b, writes.drop_last());
        let x = a.repeated_all(writes.drop_last());
        let y = b.repeated_all(writes.drop_last());
        let write = writes.last();
        match write {
            StoreWriteView::TouchConversation { conversation_id, .. } => {
                lemma_same_ids(x, y, conversation_id);
                assert(x.slot(conversation_id) == y.slot(conversation_id));
            },
            StoreWriteView::InsertRecord(record) => {
                assert(x.slot(record.conversation_id) == y.slot(record.conversation_id));
            },
            StoreWriteView::RenameConversation { conversation_id, .. } => {
                assert(x.slot(conversation_id) == y.slot(conversation_id));
            },
            StoreWriteView::DeleteConversation { conversation_id } => {
                assert(x.slot(conversation_id) == y.slot(conversation_id));
            },
            _ => {},
        }
    }
}

/// A store mirrors itself.
pub proof fn lemma_mirrors_itself(store: StoreView)
    ensures
        store.mirrors(store),
{
    assert(store.journal.skip(store.journal.len() as int) == Seq::<StoreWriteView>::empty());
    assert(store.journal.take(store.journal.len() as int) == store.journal);
}

/// Mirroring goes on through steps: a store that mirrors one that mirrors a
/// third mirrors the third.
pub proof fn lemma_mirrors_goes_on(first: StoreView, second: StoreView, third: StoreView)
    requires
        second.mirrors(first),
        third.mirrors(second),
    ensures
        third.mirrors(first),
{
    let a = first.journal.len() as int;
    let b = second.journal.len() as int;
    let early = second.journal.skip(a);
    let late = third.journal.skip(b);
    assert(third.journal.take(a) == first.journal) by {
        assert(third.journal.take(b).take(a) == third.journal.take(a));
    }
    assert(third.journal.skip(a) == early + late) by {
        assert(third.journal.take(b) == second.journal);
        assert(third.journal.skip(a) =~= third.journal.take(b).skip(a) + third.journal.skip(b));
    }
    lemma_repeated_all_joins(first, early, late);
    lemma_repeated_reads_rows(first.repeated_all(early), second, late);
}

/// A store that grew by one entry of its journal, and whose rows are those
/// of the store before with that entry repeated, mirrors the store before.
proof fn lemma_mirrors_step(before: StoreView, after: StoreView, write: StoreWriteView)
    requires
        after.journal == before.journal.push(write),
        before.repeated(write).same_rows(after),
    ensures
        after.mirrors(before),
{
    let n = before.journal.len() as int;
    assert(after.journal.take(n) == before.journal);
    assert(after.journal.skip(n) == seq![write]);
    lemma_repeated_once(before, write);
}

/// Creating the tables mirrors the store before: the journal lists what was
/// done, so that a durable copy which repeats the journal holds the rows of
/// the store.
pub proof fn lemma_created_mirrors(store: StoreView)
    ensures
        store.created().mirrors(store),
{
    if store.ready {
        lemma_mirrors_itself(store);
    } else {
        lemma_mirrors_step(store, store.created(), StoreWriteView::CreateTables);
    }
}

/// Announcing a conversation mirrors the store before.
pub proof fn lemma_upserted_mirrors(store: StoreView, id: Seq<char>, title: Seq<char>, time: i64)
    ensures
        store.upserted(id, title, time).mirrors(store),
{
    if store.has(id) {
        lemma_mirrors_step(
            store,
            store.upserted(id, title, time),
            StoreWriteView::TouchConversation { conversation_id: id, modify_time: time },
        );
    } else {
        lemma_mirrors_step(
            store,
            store.upserted(id, title, time),
            StoreWriteView::InsertConversation(
                ConversationView {
                    conversation_id: id,
                    conversation_title: title,
                    conversation_start_time: time,
                    conversation_modify_time: time,
                    conversation_records: Seq::empty(),
                },
            ),
        );
    }
}

/// Adding a record mirrors the store before.
pub proof fn lemma_appended_mirrors(store: StoreView, record: MessageRecordView)
    ensures
        store.appended(record).mirrors(store),
{
    if store.has(record.conversation_id) {
        lemma_mirrors_step(store, store.appended(record), StoreWriteView::InsertRecord(record));
    } else {
        lemma_mirrors_itself(store);
    }
}

/// Giving a conversation a new title mirrors the store before.
pub proof fn lemma_renamed_mirrors(store: StoreView, id: Seq<char>, title: Seq<char>)
    ensures
        store.renamed(id, title).mirrors(store),
{
    if store.has(id) {
        lemma_mirrors_step(
            store,
            store.renamed(id, title),
            StoreWriteView::RenameConversation { conversation_id: id, title },
        );
    } else {
        lemma_mirrors_itself(store);
    }
}

/// Deleting a conversation mirrors the store before.
pub proof fn lemma_removed_mirrors(store: StoreView, id: Seq<char>)
    ensures
        store.removed(id).mirrors(store),
{
    if store.has(id) {
        lemma_mirrors_step(
            store,
            store.removed(id),
            StoreWriteView::DeleteConversation { conversation_id: id },
        );
    } else {
        lemma_mirrors_itself(store);
    }
}

/// Saving a turn mirrors the store before.
pub proof fn lemma_saved_mirrors(
    store: StoreView,
    id: Seq<char>,
    title: Seq<char>,
    message: ChatMessageView,
    record_id: Seq<char>,
    image_record_id: Seq<char>,
    encoded: Option<EncodedImageView>,
)
    ensures
        store.saved(id, title, message, record_id, image_record_id, encoded).mirrors(store),
{
    let announced = store.upserted(id, title, message.date_time);
    lemma_upserted_mirrors(store, id, title, message.date_time);
    match store.saved_record(id, message, record_id, image_record_id, encoded) {
        Some(added) => {
            lemma_appended_mirrors(announced, added);
            lemma_mirrors_goes_on(store, announced, announced.appended(added));
        },
        None => {},
    }
}

/// Taking the journal leaves the rows as they are.
pub proof fn lemma_journal_taken(store: StoreView)
    ensures
        store.journal_taken().same_rows(store),
        store.journal_taken().journal.len() == 0,
        store.wf() ==> store.journal_taken().wf(),
{
}

/// Whatever happens to the window, the store mirrors the store before: the
/// journal lists all that an event wrote.
pub proof fn lemma_event_store_mirrors(
    window: UIView,
    event: EventView,
    store: StoreView,
    ids: FreshIdsView,
    now: i64,
)
    ensures
        window.event_store(event, store, ids, now).mirrors(store),
{
    lemma_mirrors_itself(store);
    match event {
        EventView::Title(title) => {
            lemma_renamed_mirrors(store, window.conversation_id, title);
        },
        EventView::Reply { reply, encoded } => {
            if window.receiving_message && reply is Ok && store.ready {
                let id = window.active_id(ids);
                let first = store.saved(
                    id,
                    window.title,
                    window.user_turn(),
                    ids.user_record_id,
                    ids.user_image_record_id,
                    encoded,
                );
                lemma_saved_mirrors(
                    store,
                    id,
                    window.title,
                    window.user_turn(),
                    ids.user_record_id,
                    ids.user_image_record_id,
                    encoded,
                );
                lemma_saved_mirrors(
                    first,
                    id,
                    window.title,
                    bot_turn(reply->Ok_0, now),
                    ids.bot_record_id,
                    ids.bot_image_record_id,
                    None,
                );
                lemma_mirrors_goes_on(store, first, window.persisted(store, reply, encoded, ids, now));
            }
        },
        EventView::Key(key) => {
            if window.title_editor is Some {
                lemma_renamed_mirrors(store, window.conversation_id, window.title_editor->0.content);
            }
            match window.deleted_id(store) {
                Some(id) => {
                    lemma_removed_mirrors(store, id);
                },
                None => {},
            }
        },
    }
}

} // verus!
