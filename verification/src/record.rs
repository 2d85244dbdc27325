//! The rows of the conversation store.

use vstd::prelude::*;
use crate::message::{lemma_views_push, views, ChatMessageView, DeliveryStatus, Sender, SenderView};
use crate::text::copy_of;

verus! {

/// An image ready for the backend and the store: its media type and its
/// content in base64.
#[derive(Debug, PartialEq, Eq)]
pub struct EncodedImage {
    pub image_type: String,
    pub image_base64: String,
}

/// An [`EncodedImage`] with its texts as sequences of characters.
pub struct EncodedImageView {
    pub image_type: Seq<char>,
    pub image_base64: Seq<char>,
}

impl View for EncodedImage {
    type V = EncodedImageView;

    open spec fn view(&self) -> EncodedImageView {
        EncodedImageView { image_type: self.image_type@, image_base64: self.image_base64@ }
    }
}

impl Clone for EncodedImage {
    fn clone(&self) -> (copy: EncodedImage)
        ensures
            copy@ == self@,
    {
        EncodedImage {
            image_type: copy_of(&self.image_type),
            image_base64: copy_of(&self.image_base64),
        }
    }
}

/// The view of an image that may be missing.
pub open spec fn encoded_view(image: Option<EncodedImage>) -> Option<EncodedImageView> {
    match image {
        Some(image) => Some(image@),
        None => None,
    }
}

/// The stored image of a message record.
#[derive(Debug, PartialEq, Eq)]
pub struct ImageRecord {
    pub image_record_id: String,
    /// The message record this image belongs to.
    pub record_id: String,
    pub image_path: String,
    pub image_type: String,
    pub image_base64: String,
}

/// An [`ImageRecord`] with its texts as sequences of characters.
pub struct ImageRecordView {
    pub image_record_id: Seq<char>,
    pub record_id: Seq<char>,
    pub image_path: Seq<char>,
    pub image_type: Seq<char>,
    pub image_base64: Seq<char>,
}

impl View for ImageRecord {
    type V = ImageRecordView;

    open spec fn view(&self) -> ImageRecordView {
        ImageRecordView {
            image_record_id: self.image_record_id@,
            record_id: self.record_id@,
            image_path: self.image_path@,
            image_type: self.image_type@,
            image_base64: self.image_base64@,
        }
    }
}

impl Clone for ImageRecord {
    fn clone(&self) -> (copy: ImageRecord)
        ensures
            copy@ == self@,
    {
        ImageRecord {
            image_record_id: copy_of(&self.image_record_id),
            record_id: copy_of(&self.record_id),
            image_path: copy_of(&self.image_path),
            image_type: copy_of(&self.image_type),
            image_base64: copy_of(&self.image_base64),
        }
    }
}

/// The view of an image record that may be missing.
pub open spec fn image_view(image: Option<ImageRecord>) -> Option<ImageRecordView> {
    match image {
        Some(image) => Some(image@),
        None => None,
    }
}

/// A stored turn of a conversation.
#[derive(Debug, PartialEq, Eq)]
pub struct MessageRecord {
    pub conversation_id: String,
    pub record_id: String,
    pub record_content: String,
    /// When the turn was written, in milliseconds since the Unix epoch.
    pub record_time: i64,
    pub record_sender: Sender,
    /// Place of the record among the records of its conversation.
    pub sort_index: u64,
    pub image_record: Option<ImageRecord>,
}

/// A [`MessageRecord`] with its texts as sequences of characters.
pub struct MessageRecordView {
    pub conversation_id: Seq<char>,
    pub record_id: Seq<char>,
    pub record_content: Seq<char>,
    pub record_time: i64,
    pub record_sender: SenderView,
    pub sort_index: int,
    pub image_record: Option<ImageRecordView>,
}

impl View for MessageRecord {
    type V = MessageRecordView;

    open spec fn view(&self) -> MessageRecordView {
        MessageRecordView {
            conversation_id: self.conversation_id@,
            record_id: self.record_id@,
            record_content: self.record_content@,
            record_time: self.record_time,
            record_sender: self.record_sender@,
            sort_index: self.sort_index as int,
            image_record: image_view(self.image_record),
        }
    }
}

impl MessageRecordView {
    /// The turn that the transcript shows for this record. A stored turn
    /// always belongs to an exchange that succeeded.
    pub open spec fn turn(self) -> ChatMessageView {
        ChatMessageView {
            status: DeliveryStatus::Success,
            sender: self.record_sender,
            message: self.record_content,
            date_time: self.record_time,
        }
    }

    /// Whether the record agrees with itself: its image belongs to it, and its
    /// sender names the path of that image, or no path where none is stored.
    pub open spec fn consistent(self) -> bool {
        &&& !(self.record_sender is Split)
        &&& self.image_record is Some ==> self.image_record->0.record_id == self.record_id
        &&& self.record_sender.image_path() == match self.image_record {
            Some(image) => image.image_path,
            None => Seq::empty(),
        }
        &&& self.image_record is Some ==> self.record_sender.has_image()
    }
}

impl Clone for MessageRecord {
    fn clone(&self) -> (copy: MessageRecord)
        ensures
            copy@ == self@,
    {
        let image_record = match &self.image_record {
            Some(image) => Some(image.clone()),
            None => None,
        };
        MessageRecord {
            conversation_id: copy_of(&self.conversation_id),
            record_id: copy_of(&self.record_id),
            record_content: copy_of(&self.record_content),
            record_time: self.record_time,
            record_sender: self.record_sender.clone(),
            sort_index: self.sort_index,
            image_record,
        }
    }
}

/// A copy of `records`.
pub fn copy_records(records: &Vec<MessageRecord>) -> (copy: Vec<MessageRecord>)
    ensures
        views(copy@) == views(records@),
{
    let mut copy: Vec<MessageRecord> = Vec::new();
    let mut i: usize = 0;
    while i < records.len()
        invariant
            i <= records.len(),
            views(copy@) == views(records@).take(i as int),
        decreases records.len() - i,
    {
        let record = records[i].clone();
        proof {
            lemma_views_push(copy@, record);
            assert(views(records@).take(i + 1) == views(records@).take(i as int).push(
                records@[i as int]@,
            ));
        }
        copy.push(record);
        i = i + 1;
    }
    copy
}

/// A stored conversation: its summary and, where they were loaded, its
/// records in the order of their sort index.
#[derive(Debug, PartialEq, Eq)]
pub struct Conversation {
    pub conversation_id: String,
    pub conversation_title: String,
    /// When the conversation was first stored.
    pub conversation_start_time: i64,
    /// When the conversation was last written to.
    pub conversation_modify_time: i64,
    pub conversation_records: Vec<MessageRecord>,
}

/// A [`Conversation`] with its texts as sequences of characters.
pub struct ConversationView {
    pub conversation_id: Seq<char>,
    pub conversation_title: Seq<char>,
    pub conversation_start_time: i64,
    pub conversation_modify_time: i64,
    pub conversation_records: Seq<MessageRecordView>,
}

impl View for Conversation {
    type V = ConversationView;

    open spec fn view(&self) -> ConversationView {
        ConversationView {
            conversation_id: self.conversation_id@,
            conversation_title: self.conversation_title@,
            conversation_start_time: self.conversation_start_time,
            conversation_modify_time: self.conversation_modify_time,
            conversation_records: views(self.conversation_records@),
        }
    }
}

impl ConversationView {
    /// The conversation without its records, as the list of conversations
    /// shows it.
    pub open spec fn summary(self) -> ConversationView {
        ConversationView { conversation_records: Seq::empty(), ..self }
    }

    /// The turns that the transcript shows for the records.
    pub open spec fn turns(self) -> Seq<ChatMessageView> {
        Seq::new(self.conversation_records.len(), |i: int| self.conversation_records[i].turn())
    }
}

impl Clone for Conversation {
    fn clone(&self) -> (copy: Conversation)
        ensures
            copy@ == self@,
    {
        Conversation {
            conversation_id: copy_of(&self.conversation_id),
            conversation_title: copy_of(&self.conversation_title),
            conversation_start_time: self.conversation_start_time,
            conversation_modify_time: self.conversation_modify_time,
            conversation_records: copy_records(&self.conversation_records),
        }
    }
}

/// The view of a conversation that may be missing.
pub open spec fn conversation_view(conversation: Option<Conversation>) -> Option<ConversationView> {
    match conversation {
        Some(conversation) => Some(conversation@),
        None => None,
    }
}

} // verus!
