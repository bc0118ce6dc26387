//! Cards as the screens show them.

use vstd::prelude::*;
use crate::domain::knowledge::statistics::LearningStatus;

verus! {

/// The stage of study a card is shown in.
#[derive(Debug, Clone, Copy, PartialEq, Eq, Structural)]
pub enum CardStatus {
    New,
    InProgress,
    Mastered,
    Difficult,
}

impl CardStatus {
    /// The stage shown for a stage of study.
    pub open spec fn of(status: LearningStatus) -> CardStatus {
        match status {
            LearningStatus::New => CardStatus::New,
            LearningStatus::InProgress => CardStatus::InProgress,
            LearningStatus::Known => CardStatus::Mastered,
            LearningStatus::HighDifficulty => CardStatus::Difficult,
        }
    }

    pub fn from_learning_status(status: LearningStatus) -> (shown: CardStatus)
        ensures
            shown == Self::of(status),
    {
        match status {
            LearningStatus::New => CardStatus::New,
            LearningStatus::InProgress => CardStatus::InProgress,
            LearningStatus::Known => CardStatus::Mastered,
            LearningStatus::HighDifficulty => CardStatus::Difficult,
        }
    }
}

/// A vocabulary card as a list shows it. Difficulty and stability are
/// percentages; the next review is an instant in milliseconds.
#[derive(Debug, PartialEq, Eq)]
pub struct VocabularyCardData {
    pub id: String,
    pub japanese: String,
    pub reading: String,
    pub translation: String,
    pub status: CardStatus,
    pub difficulty: u32,
    pub stability: u32,
    pub next_review: i64,
}

/// A sentence that shows a word in use, on a flash card.
#[derive(Debug, PartialEq, Eq)]
pub struct VocabExample {
    pub japanese: String,
    pub reading: String,
    pub translation: String,
}

/// The flash card of a word.
#[derive(Debug, PartialEq, Eq)]
pub struct VocabCard {
    pub japanese: String,
    pub reading: String,
    pub translation: String,
    pub examples: Vec<VocabExample>,
}

/// A component of a kanji, on a flash card.
#[derive(Debug, PartialEq, Eq)]
pub struct RadicalInfo {
    pub character: String,
    pub meaning: String,
}

/// The flash card of a kanji.
#[derive(Debug, PartialEq, Eq)]
pub struct KanjiCard {
    pub character: String,
    pub stroke_count: u8,
    pub meanings: Vec<String>,
    pub onyomi: Vec<String>,
    pub kunyomi: Vec<String>,
    pub radicals: Vec<RadicalInfo>,
}

/// A sentence that shows a rule in use, on a flash card.
#[derive(Debug, PartialEq, Eq)]
pub struct GrammarExample {
    pub grammar: String,
    pub sentence: String,
    pub translation: String,
}

/// The flash card of a grammar rule.
#[derive(Debug, PartialEq, Eq)]
pub struct GrammarCard {
    pub pattern: String,
    pub meaning: String,
    pub attachment_rules: String,
    pub examples: Vec<GrammarExample>,
}

/// A flash card of any kind.
#[derive(Debug, PartialEq, Eq)]
pub enum StudyCard {
    Vocab(VocabCard),
    Kanji(KanjiCard),
    Grammar(GrammarCard),
}

/// A flash card as a study session holds it.
#[derive(Debug, PartialEq, Eq)]
pub struct StudyCardWrapper {
    pub card: StudyCard,
}

} // verus!
