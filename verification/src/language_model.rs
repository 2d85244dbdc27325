//! The client side of the language-model backend: which model is asked, what
//! a request carries, and the history of the conversation that the backend is
//! sent with every turn.

use vstd::prelude::*;
use crate::message::{lemma_views_push, views};
use crate::record::EncodedImageView;
use crate::text::{copy_of, copy_of_option, joined, text_view};

verus! {

/// The models of the backend.
#[derive(Clone, Copy, PartialEq, Eq, Structural, Debug)]
pub enum LanguageModel {
    Gemini1_0Pro,
    Gemini1_5Pro,
    Gemini1_5Flash,
}

impl LanguageModel {
    /// The name under which the backend knows the model.
    pub open spec fn spec_name(self) -> Seq<char> {
        match self {
            LanguageModel::Gemini1_0Pro => "gemini-1.0-pro"@,
            LanguageModel::Gemini1_5Pro => "gemini-1.5-pro"@,
            LanguageModel::Gemini1_5Flash => "gemini-1.5-flash"@,
        }
    }

    /// The name under which the backend knows the model.
    pub fn name(&self) -> (name: String)
        ensures
            name@ == self.spec_name(),
    {
        match self {
            LanguageModel::Gemini1_0Pro => "gemini-1.0-pro".to_owned(),
            LanguageModel::Gemini1_5Pro => "gemini-1.5-pro".to_owned(),
            LanguageModel::Gemini1_5Flash => "gemini-1.5-flash".to_owned(),
        }
    }
}

/// Who speaks in a paragraph of the history, in the words of the backend.
#[derive(Clone, Copy, PartialEq, Eq, Structural, Debug)]
pub enum Role {
    User,
    Model,
}

impl Role {
    /// The word of the backend for the role.
    pub open spec fn spec_name(self) -> Seq<char> {
        match self {
            Role::User => "user"@,
            Role::Model => "model"@,
        }
    }

    /// The word of the backend for the role.
    pub fn name(&self) -> (name: String)
        ensures
            name@ == self.spec_name(),
    {
        match self {
            Role::User => "user".to_owned(),
            Role::Model => "model".to_owned(),
        }
    }
}

/// A piece of a paragraph.
#[derive(Debug, PartialEq, Eq)]
pub enum Part {
    /// Plain text.
    Text(String),
    /// An image: its media type and its content in base64.
    InlineData { mime_type: String, data: String },
}

/// A [`Part`] with its texts as sequences of characters.
pub enum PartView {
    Text(Seq<char>),
    InlineData { mime_type: Seq<char>, data: Seq<char> },
}

impl View for Part {
    type V = PartView;

    open spec fn view(&self) -> PartView {
        match self {
            Part::Text(text) => PartView::Text(text@),
            Part::InlineData { mime_type, data } => PartView::InlineData {
                mime_type: mime_type@,
                data: data@,
            },
        }
    }
}

impl Clone for Part {
    fn clone(&self) -> (copy: Part)
        ensures
            copy@ == self@,
    {
        match self {
            Part::Text(text) => Part::Text(copy_of(text)),
            Part::InlineData { mime_type, data } => Part::InlineData {
                mime_type: copy_of(mime_type),
                data: copy_of(data),
            },
        }
    }
}

/// The part that carries an image.
pub open spec fn image_part(image: EncodedImageView) -> PartView {
    PartView::InlineData { mime_type: image.image_type, data: image.image_base64 }
}

/// A paragraph of the history.
#[derive(Debug, PartialEq, Eq)]
pub struct Content {
    pub parts: Vec<Part>,
    /// The speaker; `None` for a paragraph that is no message.
    pub role: Option<Role>,
}

/// A [`Content`] with its texts as sequences of characters.
pub struct ContentView {
    pub parts: Seq<PartView>,
    pub role: Option<Role>,
}

impl View for Content {
    type V = ContentView;

    open spec fn view(&self) -> ContentView {
        ContentView { parts: views(self.parts@), role: self.role }
    }
}

impl ContentView {
    /// The paragraph in which `role` says `text`.
    pub open spec fn said(role: Role, text: Seq<char>) -> ContentView {
        ContentView { parts: seq![PartView::Text(text)], role: Some(role) }
    }
}

impl Clone for Content {
    fn clone(&self) -> (copy: Content)
        ensures
            copy@ == self@,
    {
        let mut parts: Vec<Part> = Vec::new();
        let mut i: usize = 0;
        while i < self.parts.len()
            invariant
                i <= self.parts.len(),
                views(parts@) == views(self.parts@).take(i as int),
            decreases self.parts.len() - i,
        {
            let part = self.parts[i].clone();
            proof {
                lemma_views_push(parts@, part);
                assert(views(self.parts@).take(i + 1) == views(self.parts@).take(i as int).push(
                    self.parts@[i as int]@,
                ));
            }
            parts.push(part);
            i = i + 1;
        }
        assert(views(self.parts@).take(i as int) == views(self.parts@));
        Content { parts, role: self.role }
    }
}

impl Content {
    /// The paragraph in which `role` says `text`.
    pub fn text(role: Role, text: String) -> (content: Content)
        ensures
            content@ == ContentView::said(role, text@),
    {
        let mut parts: Vec<Part> = Vec::new();
        let part = Part::Text(text);
        proof {
            lemma_views_push(parts@, part);
            assert(views(parts@) =~= Seq::empty());
        }
        parts.push(part);
        Content { parts, role: Some(role) }
    }
}

/// A copy of `contents`.
pub fn copy_contents(contents: &Vec<Content>) -> (copy: Vec<Content>)
    ensures
        views(copy@) == views(contents@),
{
    let mut copy: Vec<Content> = Vec::new();
    let mut i: usize = 0;
    while i < contents.len()
        invariant
            i <= contents.len(),
            views(copy@) == views(contents@).take(i as int),
        decreases contents.len() - i,
    {
        let content = contents[i].clone();
        proof {
            lemma_views_push(copy@, content);
            assert(views(contents@).take(i + 1) == views(contents@).take(i as int).push(
                contents@[i as int]@,
            ));
        }
        copy.push(content);
        i = i + 1;
    }
    copy
}

/// What is sent to the backend for one turn.
#[derive(Debug, PartialEq, Eq)]
pub struct ChatRequest {
    /// The address of the model, with the key of the user.
    pub url: String,
    /// The paragraphs of the conversation up to and with the new turn.
    pub contents: Vec<Content>,
    /// The standing instruction to the model, if there is one.
    pub system_instruction: Option<String>,
}

/// A [`ChatRequest`] with its texts as sequences of characters.
pub struct ChatRequestView {
    pub url: Seq<char>,
    pub contents: Seq<ContentView>,
    pub system_instruction: Option<Seq<char>>,
}

impl View for ChatRequest {
    type V = ChatRequestView;

    open spec fn view(&self) -> ChatRequestView {
        ChatRequestView {
            url: self.url@,
            contents: views(self.contents@),
            system_instruction: text_view(self.system_instruction),
        }
    }
}

/// The client of the backend: the key of the user, the address of the model,
/// the standing instruction and the history of the conversation.
#[derive(Debug, PartialEq, Eq)]
pub struct Gemini {
    pub key: String,
    pub url: String,
    pub system_instruction: Option<String>,
    pub contents: Vec<Content>,
}

/// A [`Gemini`] with its texts as sequences of characters.
pub struct GeminiView {
    pub key: Seq<char>,
    pub url: Seq<char>,
    pub system_instruction: Option<Seq<char>>,
    pub contents: Seq<ContentView>,
}

impl View for Gemini {
    type V = GeminiView;

    open spec fn view(&self) -> GeminiView {
        GeminiView {
            key: self.key@,
            url: self.url@,
            system_instruction: text_view(self.system_instruction),
            contents: views(self.contents@),
        }
    }
}

impl GeminiView {
    /// The address under which `model` answers.
    pub open spec fn model_url(model: LanguageModel) -> Seq<char> {
        "https://generativelanguage.googleapis.com/v1beta/models/"@ + model.spec_name()
            + ":generateContent"@
    }

    /// The address of a request: the address of the model with the key.
    pub open spec fn request_url(self) -> Seq<char> {
        self.url + "?key="@ + self.key
    }

    /// The request that sends `contents` for this client.
    pub open spec fn request(self, contents: Seq<ContentView>) -> ChatRequestView {
        ChatRequestView {
            url: self.request_url(),
            contents,
            system_instruction: self.system_instruction,
        }
    }

    /// The client after the user said `text`.
    pub open spec fn asked(self, text: Seq<char>) -> GeminiView {
        GeminiView { contents: self.contents.push(ContentView::said(Role::User, text)), ..self }
    }

    /// The client after the backend answered the last turn of the user: an
    /// answer is added to the history as a turn of the model; after an error
    /// the turn of the user is taken back.
    pub open spec fn answered(self, reply: Result<Seq<char>, Seq<char>>) -> GeminiView {
        match reply {
            Ok(text) => GeminiView {
                contents: self.contents.push(ContentView::said(Role::Model, text)),
                ..self
            },
            Err(_) => if self.contents.len() > 0 {
                GeminiView { contents: self.contents.drop_last(), ..self }
            } else {
                self
            },
        }
    }
}

/// The view of a reply of the backend: its text, or the message of its error.
pub open spec fn reply_view(reply: Result<String, String>) -> Result<Seq<char>, Seq<char>> {
    match reply {
        Ok(text) => Ok(text@),
        Err(message) => Err(message@),
    }
}

impl Clone for Gemini {
    fn clone(&self) -> (copy: Gemini)
        ensures
            copy@ == self@,
    {
        Gemini {
            key: copy_of(&self.key),
            url: copy_of(&self.url),
            system_instruction: copy_of_option(&self.system_instruction),
            contents: copy_contents(&self.contents),
        }
    }
}

impl Gemini {
    /// The model that is asked where none is named.
    pub fn default_model() -> (model: LanguageModel)
        ensures
            model == LanguageModel::Gemini1_5Flash,
    {
        LanguageModel::Gemini1_5Flash
    }

    /// A client for `model` with an empty history and no instruction.
    pub fn new(key: String, model: LanguageModel) -> (client: Gemini)
        ensures
            client@ == (GeminiView {
                key: key@,
                url: GeminiView::model_url(model),
                system_instruction: None,
                contents: Seq::empty(),
            }),
    {
        let name = model.name();
        let base = joined("https://generativelanguage.googleapis.com/v1beta/models/", name.as_str());
        let url = joined(base.as_str(), ":generateContent");
        let contents: Vec<Content> = Vec::new();
        assert(views(contents@) =~= Seq::empty());
        Gemini { key, url, system_instruction: None, contents }
    }

    /// A client for the default model.
    pub fn new_default_model(key: String) -> (client: Gemini)
        ensures
            client@ == (GeminiView {
                key: key@,
                url: GeminiView::model_url(LanguageModel::Gemini1_5Flash),
                system_instruction: None,
                contents: Seq::empty(),
            }),
    {
        Gemini::new(key, Gemini::default_model())
    }

    /// A client put together from its parts, without an instruction.
    pub fn rebuild(key: String, url: String, contents: Vec<Content>) -> (client: Gemini)
        ensures
            client@ == (GeminiView {
                key: key@,
                url: url@,
                system_instruction: None,
                contents: views(contents@),
            }),
    {
        Gemini { key, url, system_instruction: None, contents }
    }

    /// Sets the standing instruction.
    pub fn set_system_instruction(&mut self, instruction: String)
        ensures
            final(self)@ == (GeminiView { system_instruction: Some(instruction@), ..old(self)@ }),
    {
        self.system_instruction = Some(instruction);
    }

    /// Starts a conversation over: the history becomes `history`.
    pub fn start_chat(&mut self, history: Vec<Content>)
        ensures
            final(self)@ == (GeminiView { contents: views(history@), ..old(self)@ }),
    {
        self.contents = history;
    }

    /// The address of a request of this client.
    fn request_url(&self) -> (url: String)
        ensures
            url@ == self@.request_url(),
    {
        let with_mark = joined(self.url.as_str(), "?key=");
        joined(with_mark.as_str(), self.key.as_str())
    }

    /// The request for a single question outside any conversation: it
    /// carries `content` as the only paragraph, and the history stays as it
    /// is.
    pub fn chat_once(&self, content: String) -> (request: ChatRequest)
        ensures
            request@ == self@.request(seq![ContentView::said(Role::User, content@)]),
    {
        let mut contents: Vec<Content> = Vec::new();
        let said = Content::text(Role::User, content);
        proof {
            lemma_views_push(contents@, said);
            assert(views(contents@) =~= Seq::empty());
        }
        contents.push(said);
        assert(views(contents@) =~= seq![ContentView::said(Role::User, content@)]);
        ChatRequest {
            url: self.request_url(),
            contents,
            system_instruction: copy_of_option(&self.system_instruction),
        }
    }

    /// The request for the next turn of the conversation: `content` is added
    /// to the history as a turn of the user, and the request carries the
    /// whole history.
    pub fn chat_conversation(&mut self, content: String) -> (request: ChatRequest)
        ensures
            final(self)@ == old(self)@.asked(content@),
            request@ == final(self)@.request(final(self)@.contents),
    {
        let said = Content::text(Role::User, content);
        proof {
            lemma_views_push(self.contents@, said);
        }
        self.contents.push(said);
        ChatRequest {
            url: self.request_url(),
            contents: copy_contents(&self.contents),
            system_instruction: copy_of_option(&self.system_instruction),
        }
    }

    /// Takes in the reply to the request of [`Gemini::chat_conversation`] and
    /// hands it on: an answer is added to the history as a turn of the
    /// model; after an error the turn of the user is taken back.
    pub fn chat_conversation_done(&mut self, reply: Result<String, String>) -> (outcome: Result<
        String,
        String,
    >)
        ensures
            final(self)@ == old(self)@.answered(reply_view(reply)),
            reply_view(outcome) == reply_view(reply),
    {
        match reply {
            Ok(text) => {
                let said = Content::text(Role::Model, copy_of(&text));
                proof {
                    lemma_views_push(self.contents@, said);
                }
                self.contents.push(said);
                Ok(text)
            },
            Err(message) => {
                if self.contents.len() > 0 {
                    self.contents.pop();
                    assert(views(self.contents@) =~= views(old(self).contents@).drop_last());
                }
                Err(message)
            },
        }
    }
}

/// The instruction under which the backend condenses a reply into a title:
/// it asks for a summary without punctuation of no more than 15 characters.
pub open spec fn summary_instruction() -> Seq<char> {
    "请给我概括一下这段文字内容，不包含任意标点符号，不大于15字。"@
}

/// Prepares the request for a title: a client of its own for the default
/// model, with the key of the user, the summary instruction and no history,
/// asked once for `message`.
pub fn summary_by_gemini(key: String, message: String) -> (request: ChatRequest)
    ensures
        request@ == (GeminiView {
            key: key@,
            url: GeminiView::model_url(LanguageModel::Gemini1_5Flash),
            system_instruction: Some(summary_instruction()),
            contents: Seq::empty(),
        }).request(seq![ContentView::said(Role::User, message@)]),
{
    let mut pure_gemini = Gemini::new_default_model(key);
    pure_gemini.set_system_instruction(
        "请给我概括一下这段文字内容，不包含任意标点符号，不大于15字。".to_owned(),
    );
    pure_gemini.chat_once(message)
}

/// The title that a reply to the summary request gives: its text, or no title
/// where the request failed.
pub fn summary_title(reply: Result<String, String>) -> (title: String)
    ensures
        title@ == match reply {
            Ok(text) => text@,
            Err(_) => Seq::<char>::empty(),
        },
{
    match reply {
        Ok(text) => text,
        Err(_) => String::new(),
    }
}

} // verus!
