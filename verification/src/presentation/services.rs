//! The figures and the flash cards that the screens ask for.

use vstd::prelude::*;
use crate::domain::dictionary::KanjiInfo;
use crate::domain::knowledge::card::{
    phrase_views,
    Card,
    CardView,
    ExamplePhrase,
    ExamplePhraseView,
};
use crate::domain::knowledge::statistics::KnowledgeStatistics;
use crate::domain::value_objects::JapaneseLevel;
use crate::presentation::card_data::{
    CardStatus,
    GrammarCard,
    KanjiCard,
    StudyCard,
    StudyCardWrapper,
    VocabCard,
    VocabExample,
    VocabularyCardData,
};

verus! {

/// Figures about grammar rules.
#[derive(Debug, Clone, Copy, PartialEq, Eq, Structural)]
pub struct GrammarService {}

impl GrammarService {
    pub fn new() -> (service: Self) {
        Self {  }
    }

    /// How hard, in percent, the rules of `level` are taken to be.
    pub open spec fn difficulty_of(level: JapaneseLevel) -> u32 {
        match level {
            JapaneseLevel::N5 => 20,
            JapaneseLevel::N4 => 35,
            JapaneseLevel::N3 => 50,
            JapaneseLevel::N2 => 70,
            JapaneseLevel::N1 => 85,
        }
    }

    /// The name of the difficulty of `level`.
    pub open spec fn difficulty_text_of(level: JapaneseLevel) -> Seq<char> {
        match level {
            JapaneseLevel::N5 => "Начальный"@,
            JapaneseLevel::N4 => "Базовый"@,
            JapaneseLevel::N3 => "Средний"@,
            JapaneseLevel::N2 => "Продвинутый"@,
            JapaneseLevel::N1 => "Эксперт"@,
        }
    }

    pub fn calculate_difficulty(&self, level: &JapaneseLevel) -> (difficulty: u32)
        ensures
            difficulty == Self::difficulty_of(*level),
    {
        match level {
            JapaneseLevel::N5 => 20,
            JapaneseLevel::N4 => 35,
            JapaneseLevel::N3 => 50,
            JapaneseLevel::N2 => 70,
            JapaneseLevel::N1 => 85,
        }
    }

    pub fn get_difficulty_text(&self, level: &JapaneseLevel) -> (text: String)
        ensures
            text@ == Self::difficulty_text_of(*level),
    {
        match level {
            JapaneseLevel::N5 => "Начальный".to_owned(),
            JapaneseLevel::N4 => "Базовый".to_owned(),
            JapaneseLevel::N3 => "Средний".to_owned(),
            JapaneseLevel::N2 => "Продвинутый".to_owned(),
            JapaneseLevel::N1 => "Эксперт".to_owned(),
        }
    }
}

/// How hard, in percent, a kanji is taken to be: two points for each stroke,
/// fifty at most, and ten to fifty points for its level; a hundred at most.
pub open spec fn kanji_difficulty_of(stroke_count: u8, level: JapaneseLevel) -> u32 {
    let strokes: int = if stroke_count * 2 < 50 {
        stroke_count * 2
    } else {
        50
    };
    let by_level: int = match level {
        JapaneseLevel::N5 => 10,
        JapaneseLevel::N4 => 20,
        JapaneseLevel::N3 => 30,
        JapaneseLevel::N2 => 40,
        JapaneseLevel::N1 => 50,
    };
    (strokes + by_level) as u32
}

/// How hard, in percent, the kanji of `info` is taken to be.
pub fn kanji_difficulty(info: &KanjiInfo) -> (difficulty: u32)
    ensures
        difficulty == kanji_difficulty_of(info@.stroke_count, info@.jlpt),
        difficulty <= 100,
{
    let doubled: u32 = info.stroke_count() as u32 * 2;
    let strokes: u32 = if doubled < 50 {
        doubled
    } else {
        50
    };
    let by_level: u32 = match info.jlpt() {
        JapaneseLevel::N5 => 10,
        JapaneseLevel::N4 => 20,
        JapaneseLevel::N3 => 30,
        JapaneseLevel::N2 => 40,
        JapaneseLevel::N1 => 50,
    };
    let sum: u32 = strokes + by_level;
    if sum < 100 {
        sum
    } else {
        100
    }
}

/// Whether `shown` is the flash-card example of `phrase`: its text and its
/// translation, with no reading.
pub open spec fn example_matches(shown: VocabExample, phrase: ExamplePhraseView) -> bool {
    &&& shown.japanese@ == phrase.text
    &&& shown.reading@ == Seq::<char>::empty()
    &&& shown.translation@ == phrase.translation
}

/// Whether `shown` is the flash card of `card`: the question and the answer
/// in their places, the examples of a word carried over, everything the card
/// does not hold left empty.
pub open spec fn shows(shown: StudyCard, card: CardView) -> bool {
    match card {
        CardView::Vocabulary { word, meaning, example_phrases } => {
            &&& shown matches StudyCard::Vocab(vocab)
            &&& vocab.japanese@ == word
            &&& vocab.reading@ == Seq::<char>::empty()
            &&& vocab.translation@ == meaning
            &&& vocab.examples.len() == example_phrases.len()
            &&& forall|i: int|
                0 <= i < example_phrases.len() ==> example_matches(
                    #[trigger] vocab.examples[i],
                    example_phrases[i],
                )
        },
        CardView::Kanji { kanji, description, .. } => {
            &&& shown matches StudyCard::Kanji(shown_kanji)
            &&& shown_kanji.character@ == kanji
            &&& shown_kanji.stroke_count == 0
            &&& shown_kanji.meanings.len() == 1
            &&& shown_kanji.meanings[0]@ == description
            &&& shown_kanji.onyomi.len() == 0
            &&& shown_kanji.kunyomi.len() == 0
            &&& shown_kanji.radicals.len() == 0
        },
        CardView::Grammar { title, description } => {
            &&& shown matches StudyCard::Grammar(grammar)
            &&& grammar.pattern@ == title
            &&& grammar.meaning@ == description
            &&& grammar.attachment_rules@ == Seq::<char>::empty()
            &&& grammar.examples.len() == 0
        },
    }
}

/// Turns the cards of the domain into flash cards.
#[derive(Debug, Clone, Copy, PartialEq, Eq, Structural)]
pub struct StudyService {}

impl StudyService {
    pub fn new() -> (service: Self) {
        Self {  }
    }

    fn convert_examples(&self, phrases: &Vec<ExamplePhrase>) -> (examples: Vec<VocabExample>)
        ensures
            examples.len() == phrases.len(),
            forall|i: int|
                0 <= i < phrases.len() ==> example_matches(#[trigger] examples[i], phrases[i]@),
    {
        let mut examples: Vec<VocabExample> = Vec::new();
        let mut i: usize = 0;
        while i < phrases.len()
            invariant
                i <= phrases.len(),
                examples.len() == i,
                forall|k: int| 0 <= k < i ==> example_matches(#[trigger] examples[k], phrases[k]@),
            decreases phrases.len() - i,
        {
            examples.push(
                VocabExample {
                    japanese: phrases[i].text().to_owned(),
                    reading: String::new(),
                    translation: phrases[i].translation().to_owned(),
                },
            );
            i = i + 1;
        }
        examples
    }

    /// The flash card of `card`.
    pub fn convert_card_to_wrapper(&self, card: &Card) -> (wrapper: StudyCardWrapper)
        ensures
            shows(wrapper.card, card@),
    {
        match card {
            Card::Vocabulary(vocab) => {
                let phrases = vocab.example_phrases();
                let examples = self.convert_examples(phrases);
                assert forall|i: int| 0 <= i < vocab.phrases_spec().len() implies example_matches(
                    #[trigger] examples[i],
                    vocab.phrases_spec()[i],
                ) by {
                    assert(phrase_views(phrases@)[i] == phrases[i]@);
                }
                StudyCardWrapper {
                    card: StudyCard::Vocab(
                        VocabCard {
                            japanese: vocab.word().text().to_owned(),
                            reading: String::new(),
                            translation: vocab.meaning().text().to_owned(),
                            examples,
                        },
                    ),
                }
            },
            Card::Kanji(kanji) => {
                let mut meanings: Vec<String> = Vec::new();
                meanings.push(kanji.description().text().to_owned());
                StudyCardWrapper {
                    card: StudyCard::Kanji(
                        KanjiCard {
                            character: kanji.kanji().text().to_owned(),
                            stroke_count: 0,
                            meanings,
                            onyomi: Vec::new(),
                            kunyomi: Vec::new(),
                            radicals: Vec::new(),
                        },
                    ),
                }
            },
            Card::Grammar(grammar) => StudyCardWrapper {
                card: StudyCard::Grammar(
                    GrammarCard {
                        pattern: grammar.title().text().to_owned(),
                        meaning: grammar.description().text().to_owned(),
                        attachment_rules: String::new(),
                        examples: Vec::new(),
                    },
                ),
            },
        }
    }
}

/// The figures of the dashboard.
#[derive(Debug, Clone, Copy, PartialEq, Eq, Structural)]
pub struct DashboardStats {
    pub total_cards: usize,
    pub learned: usize,
    pub in_progress: usize,
    pub new_cards: usize,
    pub difficult: usize,
    pub lesson_count: usize,
    pub fixation_count: usize,
}

impl Default for DashboardStats {
    fn default() -> (stats: DashboardStats)
        ensures
            stats == (DashboardStats {
                total_cards: 0,
                learned: 0,
                in_progress: 0,
                new_cards: 0,
                difficult: 0,
                lesson_count: 0,
                fixation_count: 0,
            }),
    {
        DashboardStats {
            total_cards: 0,
            learned: 0,
            in_progress: 0,
            new_cards: 0,
            difficult: 0,
            lesson_count: 0,
            fixation_count: 0,
        }
    }
}

/// What the profile screen shows of a learner.
#[derive(Debug, PartialEq, Eq)]
pub struct UserProfileData {
    pub username: String,
    pub email: String,
    pub current_level: JapaneseLevel,
    pub avatar_url: Option<String>,
}

/// Figures about a learner.
#[derive(Debug, Clone, Copy, PartialEq, Eq, Structural)]
pub struct UserService {}

impl UserService {
    pub fn new() -> (service: Self) {
        Self {  }
    }

    /// The figures of the dashboard, from a snapshot of the collection and
    /// the numbers of cards waiting for a lesson and for fixation.
    pub fn dashboard_stats(
        &self,
        snapshot: &KnowledgeStatistics,
        lesson_count: usize,
        fixation_count: usize,
    ) -> (stats: DashboardStats)
        ensures
            stats == (DashboardStats {
                total_cards: snapshot.total_words,
                learned: snapshot.known_words,
                in_progress: snapshot.in_progress_words,
                new_cards: snapshot.new_words,
                difficult: snapshot.high_difficulty_words,
                lesson_count,
                fixation_count,
            }),
    {
        DashboardStats {
            total_cards: snapshot.total_words,
            learned: snapshot.known_words,
            in_progress: snapshot.in_progress_words,
            new_cards: snapshot.new_words,
            difficult: snapshot.high_difficulty_words,
            lesson_count,
            fixation_count,
        }
    }
}

/// How many vocabulary cards there are, and how many in each stage.
#[derive(Debug, Clone, Copy, PartialEq, Eq, Structural)]
pub struct VocabularyStats {
    pub total: usize,
    pub new: usize,
    pub in_progress: usize,
    pub mastered: usize,
    pub difficult: usize,
}

impl Default for VocabularyStats {
    fn default() -> (stats: VocabularyStats)
        ensures
            stats == (VocabularyStats {
                total: 0,
                new: 0,
                in_progress: 0,
                mastered: 0,
                difficult: 0,
            }),
    {
        VocabularyStats { total: 0, new: 0, in_progress: 0, mastered: 0, difficult: 0 }
    }
}

/// How many of `cards` are shown in the stage `status`.
pub open spec fn shown_with_status(cards: Seq<VocabularyCardData>, status: CardStatus) -> nat {
    cards.filter(|c: VocabularyCardData| c.status == status).len()
}

/// Figures about vocabulary cards.
#[derive(Debug, Clone, Copy, PartialEq, Eq, Structural)]
pub struct VocabularyService {}

impl VocabularyService {
    pub fn new() -> (service: Self) {
        Self {  }
    }

    /// Counts `cards`, and those in each stage.
    pub fn get_vocabulary_stats(&self, cards: &[VocabularyCardData]) -> (stats: VocabularyStats)
        ensures
            stats.total == cards@.len(),
            stats.new == shown_with_status(cards@, CardStatus::New),
            stats.in_progress == shown_with_status(cards@, CardStatus::InProgress),
            stats.mastered == shown_with_status(cards@, CardStatus::Mastered),
            stats.difficult == shown_with_status(cards@, CardStatus::Difficult),
            stats.new + stats.in_progress + stats.mastered + stats.difficult == stats.total,
    {
        let n = cards.len();
        let mut new: usize = 0;
        let mut in_progress: usize = 0;
        let mut mastered: usize = 0;
        let mut difficult: usize = 0;
        let mut i: usize = 0;
        proof {
            reveal(Seq::filter);
            assert(cards@.take(0) =~= Seq::<VocabularyCardData>::empty());
        }
        while i < n
            invariant
                i <= n,
                n == cards@.len(),
                new == shown_with_status(cards@.take(i as int), CardStatus::New),
                in_progress == shown_with_status(cards@.take(i as int), CardStatus::InProgress),
                mastered == shown_with_status(cards@.take(i as int), CardStatus::Mastered),
                difficult == shown_with_status(cards@.take(i as int), CardStatus::Difficult),
                new + in_progress + mastered + difficult == i,
            decreases n - i,
        {
            proof {
                reveal(Seq::filter);
                assert(cards@.take(i + 1).drop_last() == cards@.take(i as int));
                assert(cards@.take(i + 1).last() == cards@[i as int]);
            }
            match cards[i].status {
                CardStatus::New => {
                    new = new + 1;
                },
                CardStatus::InProgress => {
                    in_progress = in_progress + 1;
                },
                CardStatus::Mastered => {
                    mastered = mastered + 1;
                },
                CardStatus::Difficult => {
                    difficult = difficult + 1;
                },
            }
            i = i + 1;
        }
        assert(cards@.take(n as int) == cards@);
        VocabularyStats { total: n, new, in_progress, mastered, difficult }
    }
}

/// Some card of `cards` is the card of the kanji `kanji`.
pub open spec fn holds_kanji(cards: Seq<CardView>, kanji: Seq<char>) -> bool {
    exists|i: int|
        0 <= i < cards.len() && (#[trigger] cards[i]) is Kanji && cards[i].question() == kanji
}

/// The views of a list of cards, in order.
pub open spec fn card_views(cards: Seq<Card>) -> Seq<CardView> {
    cards.map_values(|c: Card| c@)
}

/// Whether the learner has a card of the kanji `kanji` among `cards`.
pub fn has_kanji_card(kanji: &str, cards: &Vec<Card>) -> (found: bool)
    ensures
        found == holds_kanji(card_views(cards@), kanji@),
{
    let wanted = kanji.to_owned();
    let ghost views = card_views(cards@);
    let mut i: usize = 0;
    while i < cards.len()
        invariant
            i <= cards.len(),
            wanted@ == kanji@,
            views == card_views(cards@),
            forall|k: int|
                0 <= k < i ==> !((#[trigger] views[k]) is Kanji && views[k].question() == kanji@),
        decreases cards.len() - i,
    {
        assert(views[i as int] == cards[i as int]@);
        match &cards[i] {
            Card::Kanji(card) => {
                if card.kanji().text().to_owned() == wanted {
                    return true;
                }
            },
            _ => {},
        }
        i = i + 1;
    }
    false
}

/// The stage in which a kanji is shown: in progress once the learner has its
/// card, new before.
pub fn determine_card_status(kanji: &str, cards: &Vec<Card>) -> (status: CardStatus)
    ensures
        status == if holds_kanji(card_views(cards@), kanji@) {
            CardStatus::InProgress
        } else {
            CardStatus::New
        },
{
    if has_kanji_card(kanji, cards) {
        CardStatus::InProgress
    } else {
        CardStatus::New
    }
}

/// The stability, in percent, shown for a kanji: fifty once the learner has
/// its card, nothing before.
pub fn calculate_stability(kanji: &str, cards: &Vec<Card>) -> (stability: u32)
    ensures
        stability == if holds_kanji(card_views(cards@), kanji@) {
            50u32
        } else {
            0u32
        },
{
    if has_kanji_card(kanji, cards) {
        50
    } else {
        0
    }
}

} // verus!
