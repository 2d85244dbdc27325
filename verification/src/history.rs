//! The history that the backend is sent with every turn: how it grows with
//! an exchange, and how it is put together again from stored records and
//! their images.

use vstd::prelude::*;
use crate::language_model::{
    image_part, Content, ContentView, Gemini, GeminiView, Part, PartView, Role,
};
use crate::message::{lemma_views_push, views, ChatMessage, ChatMessageView, Sender, SenderView};
use crate::record::{encoded_view, EncodedImage, EncodedImageView, MessageRecord, MessageRecordView};
use crate::text::{copy_of, is_blank};

verus! {

/// What the image cache and the encoder gave for the image of a record.
#[derive(Debug, PartialEq, Eq)]
pub struct ImageLookup {
    /// The image as the cache holds it; `None` on a miss.
    pub cached: Option<EncodedImage>,
    /// The image as encoded anew from its path; `None` where that was not
    /// tried or failed.
    pub encoded: Option<EncodedImage>,
}

/// An [`ImageLookup`] with its texts as sequences of characters.
pub struct ImageLookupView {
    pub cached: Option<EncodedImageView>,
    pub encoded: Option<EncodedImageView>,
}

impl ImageLookupView {
    /// The image to use: the cached one, else the one encoded anew.
    pub open spec fn resolved(self) -> Option<EncodedImageView> {
        if self.cached is Some {
            self.cached
        } else {
            self.encoded
        }
    }

    /// Whether the cache has to be refreshed: it missed, and the image could
    /// be encoded anew.
    pub open spec fn refreshes(self) -> bool {
        self.cached is None && self.encoded is Some
    }
}

/// The lookup for the record at `i`; where `lookups` is too short, a lookup
/// that found nothing.
pub open spec fn lookup_at(lookups: Seq<ImageLookupView>, i: int) -> ImageLookupView {
    if 0 <= i < lookups.len() {
        lookups[i]
    } else {
        ImageLookupView { cached: None, encoded: None }
    }
}

/// The paragraph of the history for a stored record: its text, and its image
/// where the record has one and the lookup found it.
pub open spec fn paragraph_of(record: MessageRecordView, lookup: ImageLookupView) -> ContentView {
    ContentView {
        parts: if record.image_record is Some && lookup.resolved() is Some {
            seq![PartView::Text(record.record_content), image_part(lookup.resolved()->0)]
        } else {
            seq![PartView::Text(record.record_content)]
        },
        role: role_of(record.record_sender),
    }
}

/// The cache request that a stored record leads to: one for its image, where
/// it has one and the cache has to be refreshed.
pub open spec fn refresh_of(record: MessageRecordView, lookup: ImageLookupView) -> Option<
    CacheRequestView,
> {
    if record.image_record is Some && lookup.refreshes() {
        Some(
            CacheRequestView {
                image_path: record.image_record->0.image_path,
                image_record_id: record.image_record->0.image_record_id,
            },
        )
    } else {
        None
    }
}

/// The history of the backend for stored records.
pub open spec fn history_of(records: Seq<MessageRecordView>, lookups: Seq<ImageLookupView>) -> Seq<
    ContentView,
> {
    Seq::new(records.len(), |i: int| paragraph_of(records[i], lookup_at(lookups, i)))
}

/// The cache requests that stored records lead to, in the order of the
/// records.
pub open spec fn refreshes_of(records: Seq<MessageRecordView>, lookups: Seq<ImageLookupView>) -> Seq<
    CacheRequestView,
>
    decreases records.len(),
{
    if records.len() == 0 {
        Seq::empty()
    } else {
        let before = refreshes_of(records.drop_last(), lookups);
        match refresh_of(records.last(), lookup_at(lookups, records.len() - 1)) {
            Some(request) => before.push(request),
            None => before,
        }
    }
}

impl View for ImageLookup {
    type V = ImageLookupView;

    open spec fn view(&self) -> ImageLookupView {
        ImageLookupView { cached: encoded_view(self.cached), encoded: encoded_view(self.encoded) }
    }
}

/// A request to put the image at a path into the cache under an id.
#[derive(Debug, PartialEq, Eq)]
pub struct CacheRequest {
    pub image_path: String,
    pub image_record_id: String,
}

/// A [`CacheRequest`] with its texts as sequences of characters.
pub struct CacheRequestView {
    pub image_path: Seq<char>,
    pub image_record_id: Seq<char>,
}

/// The view of a cache request that may be missing.
pub open spec fn request_view(request: Option<CacheRequest>) -> Option<CacheRequestView> {
    match request {
        Some(request) => Some(request@),
        None => None,
    }
}

impl View for CacheRequest {
    type V = CacheRequestView;

    open spec fn view(&self) -> CacheRequestView {
        CacheRequestView { image_path: self.image_path@, image_record_id: self.image_record_id@ }
    }
}

/// The role of the backend for a sender: the user speaks as user, the model
/// as model, and a boundary marker has no role.
pub open spec fn role_of(sender: SenderView) -> Option<Role> {
    match sender {
        SenderView::User(_) => Some(Role::User),
        SenderView::Bot => Some(Role::Model),
        SenderView::Split => None,
    }
}

/// The paragraph of the history for a turn of the user, with the image where
/// the turn names one and it was encoded.
pub open spec fn user_content(turn: ChatMessageView, encoded: Option<EncodedImageView>) -> ContentView {
    ContentView {
        parts: if turn.sender.has_image() && encoded is Some {
            seq![PartView::Text(turn.message), image_part(encoded->0)]
        } else {
            seq![PartView::Text(turn.message)]
        },
        role: Some(Role::User),
    }
}

/// The client after an exchange succeeded: the history grows by the turn of
/// the user and by the answer of the model as it came.
pub open spec fn exchanged(
    client: GeminiView,
    turn: ChatMessageView,
    encoded: Option<EncodedImageView>,
    response: Seq<char>,
) -> GeminiView {
    GeminiView {
        contents: client.contents.push(user_content(turn, encoded)).push(
            ContentView::said(Role::Model, response),
        ),
        ..client
    }
}

/// A client built anew from `client` with `history` as its history. It keeps
/// key and address; an instruction that was missing becomes the empty one.
pub open spec fn restarted(client: GeminiView, history: Seq<ContentView>) -> GeminiView {
    GeminiView {
        key: client.key,
        url: client.url,
        system_instruction: Some(
            match client.system_instruction {
                Some(instruction) => instruction,
                None => Seq::empty(),
            },
        ),
        contents: history,
    }
}

/// Builds a client anew from `client` with `history` as its history.
pub fn restart(client: &Gemini, history: Vec<Content>) -> (fresh: Gemini)
    ensures
        fresh@ == restarted(client@, views(history@)),
{
    let mut fresh = Gemini::rebuild(copy_of(&client.key), copy_of(&client.url), history);
    let instruction = match &client.system_instruction {
        Some(instruction) => copy_of(instruction),
        None => String::new(),
    };
    fresh.set_system_instruction(instruction);
    fresh
}

/// Adds the image of a stored record to the parts of its paragraph: the
/// cached image, or on a miss the image encoded anew, which then is asked to
/// be put into the cache. Where neither is there, nothing is added.
pub fn read_image_data(
    image_record_id: String,
    image_path: String,
    lookup: &ImageLookup,
    parts: &mut Vec<Part>,
) -> (request: Option<CacheRequest>)
    ensures
        views(final(parts)@) == (match lookup@.resolved() {
            Some(image) => views(old(parts)@).push(image_part(image)),
            None => views(old(parts)@),
        }),
        request_view(request) == (if lookup@.refreshes() {
            Some(CacheRequestView { image_path: image_path@, image_record_id: image_record_id@ })
        } else {
            None
        }),
{
    match &lookup.cached {
        Some(image) => {
            let part = Part::InlineData {
                mime_type: copy_of(&image.image_type),
                data: copy_of(&image.image_base64),
            };
            proof {
                lemma_views_push(parts@, part);
            }
            parts.push(part);
            None
        },
        None => match &lookup.encoded {
            Some(image) => {
                let part = Part::InlineData {
                    mime_type: copy_of(&image.image_type),
                    data: copy_of(&image.image_base64),
                };
                proof {
                    lemma_views_push(parts@, part);
                }
                parts.push(part);
                Some(CacheRequest { image_path, image_record_id })
            },
            None => None,
        },
    }
}

/// The paragraph of the history for a stored record, and the cache request
/// that the record leads to.
pub fn record_paragraph(record: &MessageRecord, lookup: &ImageLookup) -> (made: (
    Content,
    Option<CacheRequest>,
))
    ensures
        made.0@ == paragraph_of(record@, lookup@),
        request_view(made.1) == refresh_of(record@, lookup@),
{
    let role = match &record.record_sender {
        Sender::User(_) => Some(Role::User),
        Sender::Bot => Some(Role::Model),
        Sender::Split => None,
    };
    let mut parts: Vec<Part> = Vec::new();
    let text = Part::Text(copy_of(&record.record_content));
    proof {
        assert(views(parts@) =~= Seq::empty());
        lemma_views_push(parts@, text);
    }
    parts.push(text);
    assert(views(parts@) =~= seq![PartView::Text(record@.record_content)]);
    let request = match &record.image_record {
        Some(image) => read_image_data(
            copy_of(&image.image_record_id),
            copy_of(&image.image_path),
            lookup,
            &mut parts,
        ),
        None => None,
    };
    assert(views(parts@) =~= paragraph_of(record@, lookup@).parts);
    (Content { parts, role }, request)
}

/// The paragraph of the history for a turn of the user.
pub fn user_paragraph(turn: &ChatMessage, encoded: &Option<EncodedImage>) -> (content: Content)
    ensures
        content@ == user_content(turn@, encoded_view(*encoded)),
{
    let with_image = match &turn.sender {
        Sender::User(path) => !is_blank(path),
        _ => false,
    };
    let mut parts: Vec<Part> = Vec::new();
    let text = Part::Text(copy_of(&turn.message));
    proof {
        assert(views(parts@) =~= Seq::empty());
        lemma_views_push(parts@, text);
    }
    parts.push(text);
    match encoded {
        Some(image) if with_image => {
            let part = Part::InlineData {
                mime_type: copy_of(&image.image_type),
                data: copy_of(&image.image_base64),
            };
            proof {
                lemma_views_push(parts@, part);
            }
            parts.push(part);
            assert(views(parts@) =~= seq![PartView::Text(turn@.message), image_part(image@)]);
        },
        _ => {
            assert(views(parts@) =~= seq![PartView::Text(turn@.message)]);
        },
    }
    Content { parts, role: Some(Role::User) }
}

} // verus!
