//! The stored configuration, and the client it gives.

use vstd::prelude::*;
use crate::language_model::{GeminiView, LanguageModel};
use crate::text::text_view;

verus! {

/// The stored configuration, as far as the window reads it.
#[derive(Debug, PartialEq, Eq)]
pub struct StoreData {
    /// The key of the user.
    pub key: String,
    /// The address of the model.
    pub url: String,
    /// The standing instruction to the model.
    pub system_instruction: Option<String>,
    /// The version of the store's tables.
    pub db_version: Option<String>,
}

/// [`StoreData`] with its texts as sequences of characters.
pub struct StoreDataView {
    pub key: Seq<char>,
    pub url: Seq<char>,
    pub system_instruction: Option<Seq<char>>,
    pub db_version: Option<Seq<char>>,
}

impl View for StoreData {
    type V = StoreDataView;

    open spec fn view(&self) -> StoreDataView {
        StoreDataView {
            key: self.key@,
            url: self.url@,
            system_instruction: text_view(self.system_instruction),
            db_version: text_view(self.db_version),
        }
    }
}

/// The view of a configuration that may be missing.
pub open spec fn config_view(config: Option<StoreData>) -> Option<StoreDataView> {
    match config {
        Some(config) => Some(config@),
        None => None,
    }
}

/// The text of `text`, or the empty text where it is missing.
pub open spec fn or_empty(text: Option<Seq<char>>) -> Seq<char> {
    match text {
        Some(text) => text,
        None => Seq::empty(),
    }
}

/// The client that a stored configuration gives: key, address and
/// instruction of the configuration, and the history of the client before,
/// if there was one.
pub open spec fn configured(before: Option<GeminiView>, data: StoreDataView) -> GeminiView {
    GeminiView {
        key: data.key,
        url: data.url,
        system_instruction: Some(or_empty(data.system_instruction)),
        contents: match before {
            Some(client) => client.contents,
            None => Seq::empty(),
        },
    }
}

/// The client that a key alone gives: the default model, the empty
/// instruction and no history.
pub open spec fn keyed(key: Seq<char>) -> GeminiView {
    GeminiView {
        key,
        url: GeminiView::model_url(LanguageModel::Gemini1_5Flash),
        system_instruction: Some(Seq::empty()),
        contents: Seq::empty(),
    }
}

/// The configuration that is stored for a client made from a key alone.
pub open spec fn keyed_config(key: Seq<char>) -> StoreDataView {
    StoreDataView {
        key,
        url: GeminiView::model_url(LanguageModel::Gemini1_5Flash),
        system_instruction: Some(Seq::empty()),
        db_version: None,
    }
}

/// The key to make a client from where no configuration is stored: the one
/// the user typed, else the one of the environment.
pub open spec fn chosen_key(key: Option<Seq<char>>, env_key: Option<Seq<char>>) -> Option<Seq<char>> {
    if key is Some {
        key
    } else {
        env_key
    }
}

} // verus!
