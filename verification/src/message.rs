//! The turns of a conversation as the transcript holds them.

use vstd::prelude::*;
use crate::text::copy_of;

verus! {

/// Who wrote a turn.
#[derive(Debug, PartialEq, Eq)]
pub enum Sender {
    /// The user. The text is the path of the attached image, empty when the
    /// turn carries no image.
    User(String),
    /// The language model.
    Bot,
    /// A boundary between turns that is no message itself.
    Split,
}

/// A [`Sender`] with its text as a sequence of characters.
pub enum SenderView {
    User(Seq<char>),
    Bot,
    Split,
}

impl View for Sender {
    type V = SenderView;

    open spec fn view(&self) -> SenderView {
        match self {
            Sender::User(path) => SenderView::User(path@),
            Sender::Bot => SenderView::Bot,
            Sender::Split => SenderView::Split,
        }
    }
}

impl SenderView {
    /// The path of the attached image; empty where there is none.
    pub open spec fn image_path(self) -> Seq<char> {
        match self {
            SenderView::User(path) => path,
            _ => Seq::empty(),
        }
    }

    /// Whether the sender is the user and the turn carries an image.
    pub open spec fn has_image(self) -> bool {
        self is User && self.image_path().len() > 0
    }

    /// The sender without its attachment.
    pub open spec fn bare(self) -> SenderView {
        match self {
            SenderView::User(_) => SenderView::User(Seq::empty()),
            other => other,
        }
    }
}

impl Clone for Sender {
    fn clone(&self) -> (copy: Sender)
        ensures
            copy@ == self@,
    {
        match self {
            Sender::User(path) => Sender::User(copy_of(path)),
            Sender::Bot => Sender::Bot,
            Sender::Split => Sender::Split,
        }
    }
}

/// How far the exchange that a turn belongs to has come.
#[derive(Clone, Copy, PartialEq, Eq, Structural, Debug)]
pub enum DeliveryStatus {
    /// Sent to the backend, no answer yet.
    Pending,
    /// The backend answered.
    Success,
    /// The backend reported an error.
    Failed,
}

/// One turn of the transcript.
#[derive(Debug, PartialEq, Eq)]
pub struct ChatMessage {
    /// State of the exchange this turn belongs to.
    pub status: DeliveryStatus,
    /// Who wrote the turn.
    pub sender: Sender,
    /// The text of the turn.
    pub message: String,
    /// When the turn was written, in milliseconds since the Unix epoch.
    pub date_time: i64,
}

/// A [`ChatMessage`] with its texts as sequences of characters.
pub struct ChatMessageView {
    pub status: DeliveryStatus,
    pub sender: SenderView,
    pub message: Seq<char>,
    pub date_time: i64,
}

impl View for ChatMessage {
    type V = ChatMessageView;

    open spec fn view(&self) -> ChatMessageView {
        ChatMessageView {
            status: self.status,
            sender: self.sender@,
            message: self.message@,
            date_time: self.date_time,
        }
    }
}

impl ChatMessageView {
    /// The same turn with another delivery status.
    pub open spec fn with_status(self, status: DeliveryStatus) -> ChatMessageView {
        ChatMessageView { status, ..self }
    }
}

impl Clone for ChatMessage {
    fn clone(&self) -> (copy: ChatMessage)
        ensures
            copy@ == self@,
    {
        ChatMessage {
            status: self.status,
            sender: self.sender.clone(),
            message: copy_of(&self.message),
            date_time: self.date_time,
        }
    }
}

/// The views of the items of `items`, in order.
pub open spec fn views<T: View>(items: Seq<T>) -> Seq<T::V> {
    Seq::new(items.len(), |i: int| items[i]@)
}

/// The views of a sequence that grew by one item are the views of the
/// sequence before, and the view of the item after them.
pub proof fn lemma_views_push<T: View>(items: Seq<T>, item: T)
    ensures
        views(items.push(item)) == views(items).push(item@),
{
    assert(views(items.push(item)) =~= views(items).push(item@));
}

/// The turns of `turns` that wait for an answer of the backend.
pub open spec fn pending_count(turns: Seq<ChatMessageView>) -> nat
    decreases turns.len(),
{
    if turns.len() == 0 {
        0
    } else {
        pending_count(turns.drop_last()) + if turns.last().status == DeliveryStatus::Pending {
            1nat
        } else {
            0nat
        }
    }
}

/// Whether some turn of `turns` belongs to an exchange that succeeded.
pub open spec fn has_success(turns: Seq<ChatMessageView>) -> bool {
    exists|i: int| 0 <= i < turns.len() && (#[trigger] turns[i]).status == DeliveryStatus::Success
}

/// Whether no turn of `turns` waits for an answer.
pub open spec fn all_settled(turns: Seq<ChatMessageView>) -> bool {
    forall|i: int| 0 <= i < turns.len() ==> (#[trigger] turns[i]).status != DeliveryStatus::Pending
}

/// Where no turn waits, the count of waiting turns is zero.
pub proof fn lemma_settled_counts_zero(turns: Seq<ChatMessageView>)
    requires
        all_settled(turns),
    ensures
        pending_count(turns) == 0,
    decreases turns.len(),
{
    if turns.len() > 0 {
        assert(turns.last() == turns[turns.len() - 1]);
        assert forall|i: int| 0 <= i < turns.drop_last().len() implies (
        #[trigger] turns.drop_last()[i]).status != DeliveryStatus::Pending by {
            assert(turns.drop_last()[i] == turns[i]);
        }
        lemma_settled_counts_zero(turns.drop_last());
    }
}

} // verus!
