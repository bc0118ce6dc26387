//! The error type shared by the whole domain.

use vstd::prelude::*;
use vstd::string::StringExecFns;
use crate::domain::identity::{id_to_string, ulid_text};

verus! {

/// Everything that can go wrong in the domain or in one of its collaborators.
///
/// Each variant carries the value that explains it, so callers can branch on
/// the kind and still report the detail.
#[derive(Debug, Clone, PartialEq, Eq)]
pub enum KeikakuError {
    UserNotFound { user_id: u128 },
    UserNotFoundByUsername { username: String },
    CardNotFound { card_id: u128 },
    DuplicateCard { question: String },
    InvalidQuestion { reason: String },
    InvalidAnswer { reason: String },
    InvalidStability { reason: String },
    InvalidDifficulty { reason: String },
    InvalidMemoryState { reason: String },
    SrsCalculationFailed { reason: String },
    RepositoryError { reason: String },
    EmbeddingError { reason: String },
    LlmError { reason: String },
    SettingsError { reason: String },
    FuriganaError { reason: String },
    TranslationError { reason: String },
    KradfileError { reason: String },
    InvalidValues { reason: String },
    TokenizerError { reason: String },
    GrammarFormatError { reason: String },
    WellKnownSetError { reason: String },
}

/// `before`, then `middle`, then `after`.
fn framed(before: &str, middle: &str, after: &str) -> (text: String)
    ensures
        text@ == before@ + middle@ + after@,
{
    let mut text = String::from_str(before);
    text.append(middle);
    text.append(after);
    text
}

/// `before`, then `rest`.
fn prefixed(before: &str, rest: &str) -> (text: String)
    ensures
        text@ == before@ + rest@,
{
    let mut text = String::from_str(before);
    text.append(rest);
    text
}

impl KeikakuError {
    /// The text of the message that [`KeikakuError::message`] builds.
    pub open spec fn message_text(self) -> Seq<char> {
        match self {
            KeikakuError::UserNotFound { user_id } => "User with id "@ + ulid_text(user_id)
                + " not found"@,
            KeikakuError::UserNotFoundByUsername { username } => "User with username "@
                + username@ + " not found"@,
            KeikakuError::CardNotFound { card_id } => "Card with id "@ + ulid_text(card_id)
                + " not found"@,
            KeikakuError::DuplicateCard { question } => "Card with question '"@ + question@
                + "' already exists"@,
            KeikakuError::InvalidQuestion { reason } => "Invalid question: "@ + reason@,
            KeikakuError::InvalidAnswer { reason } => "Invalid answer: "@ + reason@,
            KeikakuError::InvalidStability { reason } => "Invalid stability: "@ + reason@,
            KeikakuError::InvalidDifficulty { reason } => "Invalid difficulty: "@ + reason@,
            KeikakuError::InvalidMemoryState { reason } => "Invalid memory state: "@ + reason@,
            KeikakuError::SrsCalculationFailed { reason } => "SRS calculation failed: "@
                + reason@,
            KeikakuError::RepositoryError { reason } => "Repository error: "@ + reason@,
            KeikakuError::EmbeddingError { reason } => "Embedding error: "@ + reason@,
            KeikakuError::LlmError { reason } => "LLM error: "@ + reason@,
            KeikakuError::SettingsError { reason } => "Settings error: "@ + reason@,
            KeikakuError::FuriganaError { reason } => "Furigana error: "@ + reason@,
            KeikakuError::TranslationError { reason } => "Translation error: "@ + reason@,
            KeikakuError::KradfileError { reason } => "Kradfile error: "@ + reason@,
            KeikakuError::InvalidValues { reason } => "Invalid values: "@ + reason@,
            KeikakuError::TokenizerError { reason } => "Tokenizer error: "@ + reason@,
            KeikakuError::GrammarFormatError { reason } => "Grammar rule format error: "@
                + reason@,
            KeikakuError::WellKnownSetError { reason } => "WellKnownSetError: "@ + reason@,
        }
    }

    /// The message a person reads for this error.
    pub fn message(&self) -> (text: String)
        ensures
            text@ == self.message_text(),
    {
        match self {
            KeikakuError::UserNotFound { user_id } => {
                let id = id_to_string(*user_id);
                framed("User with id ", id.as_str(), " not found")
            },
            KeikakuError::UserNotFoundByUsername { username } => framed(
                "User with username ",
                username.as_str(),
                " not found",
            ),
            KeikakuError::CardNotFound { card_id } => {
                let id = id_to_string(*card_id);
                framed("Card with id ", id.as_str(), " not found")
            },
            KeikakuError::DuplicateCard { question } => framed(
                "Card with question '",
                question.as_str(),
                "' already exists",
            ),
            KeikakuError::InvalidQuestion { reason } => prefixed(
                "Invalid question: ",
                reason.as_str(),
            ),
            KeikakuError::InvalidAnswer { reason } => prefixed("Invalid answer: ", reason.as_str()),
            KeikakuError::InvalidStability { reason } => prefixed(
                "Invalid stability: ",
                reason.as_str(),
            ),
            KeikakuError::InvalidDifficulty { reason } => prefixed(
                "Invalid difficulty: ",
                reason.as_str(),
            ),
            KeikakuError::InvalidMemoryState { reason } => prefixed(
                "Invalid memory state: ",
                reason.as_str(),
            ),
            KeikakuError::SrsCalculationFailed { reason } => prefixed(
                "SRS calculation failed: ",
                reason.as_str(),
            ),
            KeikakuError::RepositoryError { reason } => prefixed(
                "Repository error: ",
                reason.as_str(),
            ),
            KeikakuError::EmbeddingError { reason } => prefixed(
                "Embedding error: ",
                reason.as_str(),
            ),
            KeikakuError::LlmError { reason } => prefixed("LLM error: ", reason.as_str()),
            KeikakuError::SettingsError { reason } => prefixed("Settings error: ", reason.as_str()),
            KeikakuError::FuriganaError { reason } => prefixed("Furigana error: ", reason.as_str()),
            KeikakuError::TranslationError { reason } => prefixed(
                "Translation error: ",
                reason.as_str(),
            ),
            KeikakuError::KradfileError { reason } => prefixed("Kradfile error: ", reason.as_str()),
            KeikakuError::InvalidValues { reason } => prefixed("Invalid values: ", reason.as_str()),
            KeikakuError::TokenizerError { reason } => prefixed(
                "Tokenizer error: ",
                reason.as_str(),
            ),
            KeikakuError::GrammarFormatError { reason } => prefixed(
                "Grammar rule format error: ",
                reason.as_str(),
            ),
            KeikakuError::WellKnownSetError { reason } => prefixed(
                "WellKnownSetError: ",
                reason.as_str(),
            ),
        }
    }
}

} // verus!
