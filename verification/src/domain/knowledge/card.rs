//! The three kinds of card and the study card that wraps one of them.

use vstd::prelude::*;
use crate::domain::identity::fresh_id;
use crate::domain::memory::{MemoryHistory, MemoryHistoryView, MemoryState, ReviewLog};
use crate::domain::value_objects::{Answer, Question};

verus! {

/// What an example phrase holds.
pub struct ExamplePhraseView {
    pub text: Seq<char>,
    pub translation: Seq<char>,
}

/// A sentence that shows a word in use, with its translation.
#[derive(Debug, PartialEq, Eq)]
pub struct ExamplePhrase {
    text: String,
    translation: String,
}

impl View for ExamplePhrase {
    type V = ExamplePhraseView;

    closed spec fn view(&self) -> ExamplePhraseView {
        ExamplePhraseView { text: self.text@, translation: self.translation@ }
    }
}

impl Clone for ExamplePhrase {
    fn clone(&self) -> (copy: ExamplePhrase)
        ensures
            copy@ == self@,
    {
        ExamplePhrase { text: self.text.clone(), translation: self.translation.clone() }
    }
}

impl ExamplePhrase {
    pub fn new(text: String, translation: String) -> (phrase: ExamplePhrase)
        ensures
            phrase@ == (ExamplePhraseView { text: text@, translation: translation@ }),
    {
        ExamplePhrase { text, translation }
    }

    pub fn text(&self) -> (text: &str)
        ensures
            text@ == self@.text,
    {
        self.text.as_str()
    }

    pub fn translation(&self) -> (translation: &str)
        ensures
            translation@ == self@.translation,
    {
        self.translation.as_str()
    }
}

/// What an example word holds.
pub struct ExampleKanjiWordView {
    pub word: Seq<char>,
    pub meaning: Seq<char>,
}

/// A word written with a kanji, with its meaning.
#[derive(Debug, PartialEq, Eq)]
pub struct ExampleKanjiWord {
    word: String,
    meaning: String,
}

impl View for ExampleKanjiWord {
    type V = ExampleKanjiWordView;

    closed spec fn view(&self) -> ExampleKanjiWordView {
        ExampleKanjiWordView { word: self.word@, meaning: self.meaning@ }
    }
}

impl Clone for ExampleKanjiWord {
    fn clone(&self) -> (copy: ExampleKanjiWord)
        ensures
            copy@ == self@,
    {
        ExampleKanjiWord { word: self.word.clone(), meaning: self.meaning.clone() }
    }
}

impl ExampleKanjiWord {
    pub fn new(word: String, meaning: String) -> (example: ExampleKanjiWord)
        ensures
            example@ == (ExampleKanjiWordView { word: word@, meaning: meaning@ }),
    {
        ExampleKanjiWord { word, meaning }
    }

    pub fn word(&self) -> (word: &str)
        ensures
            word@ == self@.word,
    {
        self.word.as_str()
    }

    pub fn meaning(&self) -> (meaning: &str)
        ensures
            meaning@ == self@.meaning,
    {
        self.meaning.as_str()
    }
}

/// The views of a list of example phrases, in order.
pub open spec fn phrase_views(phrases: Seq<ExamplePhrase>) -> Seq<ExamplePhraseView> {
    phrases.map_values(|p: ExamplePhrase| p@)
}

/// The views of a list of example words, in order.
pub open spec fn word_views(words: Seq<ExampleKanjiWord>) -> Seq<ExampleKanjiWordView> {
    words.map_values(|w: ExampleKanjiWord| w@)
}

fn copy_phrases(phrases: &Vec<ExamplePhrase>) -> (copy: Vec<ExamplePhrase>)
    ensures
        phrase_views(copy@) == phrase_views(phrases@),
{
    let mut copy: Vec<ExamplePhrase> = Vec::new();
    let mut i: usize = 0;
    while i < phrases.len()
        invariant
            i <= phrases.len(),
            copy.len() == i,
            forall|k: int| 0 <= k < i ==> copy[k]@ == phrases[k]@,
        decreases phrases.len() - i,
    {
        copy.push(phrases[i].clone());
        i = i + 1;
    }
    assert(phrase_views(copy@) =~= phrase_views(phrases@));
    copy
}

fn copy_words(words: &Vec<ExampleKanjiWord>) -> (copy: Vec<ExampleKanjiWord>)
    ensures
        word_views(copy@) == word_views(words@),
{
    let mut copy: Vec<ExampleKanjiWord> = Vec::new();
    let mut i: usize = 0;
    while i < words.len()
        invariant
            i <= words.len(),
            copy.len() == i,
            forall|k: int| 0 <= k < i ==> copy[k]@ == words[k]@,
        decreases words.len() - i,
    {
        copy.push(words[i].clone());
        i = i + 1;
    }
    assert(word_views(copy@) =~= word_views(words@));
    copy
}

/// A word to learn: the word, what it means and how it is used.
#[derive(Debug, PartialEq, Eq)]
pub struct VocabularyCard {
    word: Question,
    meaning: Answer,
    example_phrases: Vec<ExamplePhrase>,
}

impl VocabularyCard {
    pub closed spec fn word_spec(&self) -> Seq<char> {
        self.word@
    }

    pub closed spec fn meaning_spec(&self) -> Seq<char> {
        self.meaning@
    }

    pub closed spec fn phrases_spec(&self) -> Seq<ExamplePhraseView> {
        phrase_views(self.example_phrases@)
    }

    pub fn new(word: Question, meaning: Answer, example_phrases: Vec<ExamplePhrase>) -> (card:
        VocabularyCard)
        ensures
            card.word_spec() == word@,
            card.meaning_spec() == meaning@,
            card.phrases_spec() == phrase_views(example_phrases@),
    {
        VocabularyCard { word, meaning, example_phrases }
    }

    pub fn word(&self) -> (word: &Question)
        ensures
            word@ == self.word_spec(),
            word.wf(),
    {
        let word = &self.word;
        proof {
            use_type_invariant(word);
            word.lemma_invariant_is_wf();
        }
        word
    }

    pub fn meaning(&self) -> (meaning: &Answer)
        ensures
            meaning@ == self.meaning_spec(),
            meaning.wf(),
    {
        let meaning = &self.meaning;
        proof {
            use_type_invariant(meaning);
            meaning.lemma_invariant_is_wf();
        }
        meaning
    }

    pub fn example_phrases(&self) -> (phrases: &Vec<ExamplePhrase>)
        ensures
            phrase_views(phrases@) == self.phrases_spec(),
    {
        &self.example_phrases
    }
}

impl Clone for VocabularyCard {
    fn clone(&self) -> (copy: VocabularyCard)
        ensures
            copy.word_spec() == self.word_spec(),
            copy.meaning_spec() == self.meaning_spec(),
            copy.phrases_spec() == self.phrases_spec(),
    {
        VocabularyCard {
            word: self.word.clone(),
            meaning: self.meaning.clone(),
            example_phrases: copy_phrases(&self.example_phrases),
        }
    }
}

/// A kanji to learn: the character, what it stands for and words written
/// with it.
#[derive(Debug, PartialEq, Eq)]
pub struct KanjiCard {
    kanji: Question,
    description: Answer,
    example_words: Vec<ExampleKanjiWord>,
}

impl KanjiCard {
    pub closed spec fn kanji_spec(&self) -> Seq<char> {
        self.kanji@
    }

    pub closed spec fn description_spec(&self) -> Seq<char> {
        self.description@
    }

    pub closed spec fn words_spec(&self) -> Seq<ExampleKanjiWordView> {
        word_views(self.example_words@)
    }

    pub fn new(kanji: Question, description: Answer, example_words: Vec<ExampleKanjiWord>) -> (card:
        KanjiCard)
        ensures
            card.kanji_spec() == kanji@,
            card.description_spec() == description@,
            card.words_spec() == word_views(example_words@),
    {
        KanjiCard { kanji, description, example_words }
    }

    pub fn kanji(&self) -> (kanji: &Question)
        ensures
            kanji@ == self.kanji_spec(),
            kanji.wf(),
    {
        let kanji = &self.kanji;
        proof {
            use_type_invariant(kanji);
            kanji.lemma_invariant_is_wf();
        }
        kanji
    }

    pub fn description(&self) -> (description: &Answer)
        ensures
            description@ == self.description_spec(),
            description.wf(),
    {
        let description = &self.description;
        proof {
            use_type_invariant(description);
            description.lemma_invariant_is_wf();
        }
        description
    }

    pub fn example_words(&self) -> (words: &Vec<ExampleKanjiWord>)
        ensures
            word_views(words@) == self.words_spec(),
    {
        &self.example_words
    }
}

impl Clone for KanjiCard {
    fn clone(&self) -> (copy: KanjiCard)
        ensures
            copy.kanji_spec() == self.kanji_spec(),
            copy.description_spec() == self.description_spec(),
            copy.words_spec() == self.words_spec(),
    {
        KanjiCard {
            kanji: self.kanji.clone(),
            description: self.description.clone(),
            example_words: copy_words(&self.example_words),
        }
    }
}

/// A grammar rule to learn: its title and its explanation.
#[derive(Debug, PartialEq, Eq)]
pub struct GrammarRuleCard {
    title: Question,
    description: Answer,
}

impl GrammarRuleCard {
    pub closed spec fn title_spec(&self) -> Seq<char> {
        self.title@
    }

    pub closed spec fn description_spec(&self) -> Seq<char> {
        self.description@
    }

    pub fn new(title: Question, description: Answer) -> (card: GrammarRuleCard)
        ensures
            card.title_spec() == title@,
            card.description_spec() == description@,
    {
        GrammarRuleCard { title, description }
    }

    pub fn title(&self) -> (title: &Question)
        ensures
            title@ == self.title_spec(),
            title.wf(),
    {
        let title = &self.title;
        proof {
            use_type_invariant(title);
            title.lemma_invariant_is_wf();
        }
        title
    }

    pub fn description(&self) -> (description: &Answer)
        ensures
            description@ == self.description_spec(),
            description.wf(),
    {
        let description = &self.description;
        proof {
            use_type_invariant(description);
            description.lemma_invariant_is_wf();
        }
        description
    }
}

impl Clone for GrammarRuleCard {
    fn clone(&self) -> (copy: GrammarRuleCard)
        ensures
            copy.title_spec() == self.title_spec(),
            copy.description_spec() == self.description_spec(),
    {
        GrammarRuleCard { title: self.title.clone(), description: self.description.clone() }
    }
}

/// What a card holds, whatever its kind.
pub enum CardView {
    Vocabulary { word: Seq<char>, meaning: Seq<char>, example_phrases: Seq<ExamplePhraseView> },
    Kanji { kanji: Seq<char>, description: Seq<char>, example_words: Seq<ExampleKanjiWordView> },
    Grammar { title: Seq<char>, description: Seq<char> },
}

impl CardView {
    /// The text shown first.
    pub open spec fn question(self) -> Seq<char> {
        match self {
            CardView::Vocabulary { word, .. } => word,
            CardView::Kanji { kanji, .. } => kanji,
            CardView::Grammar { title, .. } => title,
        }
    }

    /// The text revealed afterwards.
    pub open spec fn answer(self) -> Seq<char> {
        match self {
            CardView::Vocabulary { meaning, .. } => meaning,
            CardView::Kanji { description, .. } => description,
            CardView::Grammar { description, .. } => description,
        }
    }
}

/// Something to learn: a word, a kanji or a grammar rule.
#[derive(Debug, PartialEq, Eq)]
pub enum Card {
    Vocabulary(VocabularyCard),
    Kanji(KanjiCard),
    Grammar(GrammarRuleCard),
}

impl View for Card {
    type V = CardView;

    open spec fn view(&self) -> CardView {
        match self {
            Card::Vocabulary(card) => CardView::Vocabulary {
                word: card.word_spec(),
                meaning: card.meaning_spec(),
                example_phrases: card.phrases_spec(),
            },
            Card::Kanji(card) => CardView::Kanji {
                kanji: card.kanji_spec(),
                description: card.description_spec(),
                example_words: card.words_spec(),
            },
            Card::Grammar(card) => CardView::Grammar {
                title: card.title_spec(),
                description: card.description_spec(),
            },
        }
    }
}

impl Clone for Card {
    fn clone(&self) -> (copy: Card)
        ensures
            copy@ == self@,
    {
        match self {
            Card::Vocabulary(card) => Card::Vocabulary(card.clone()),
            Card::Kanji(card) => Card::Kanji(card.clone()),
            Card::Grammar(card) => Card::Grammar(card.clone()),
        }
    }
}

impl Card {
    /// The side shown first: the word, the kanji or the rule's title. Its
    /// text is never empty.
    pub fn question(&self) -> (question: &Question)
        ensures
            question@ == self@.question(),
            question.wf(),
            self@.question().len() > 0,
    {
        match self {
            Card::Vocabulary(card) => card.word(),
            Card::Kanji(card) => card.kanji(),
            Card::Grammar(card) => card.title(),
        }
    }

    /// The side revealed afterwards: the meaning or the description. Its
    /// text is never empty.
    pub fn answer(&self) -> (answer: &Answer)
        ensures
            answer@ == self@.answer(),
            answer.wf(),
            self@.answer().len() > 0,
    {
        match self {
            Card::Vocabulary(card) => card.meaning(),
            Card::Kanji(card) => card.description(),
            Card::Grammar(card) => card.description(),
        }
    }
}

/// What a study card holds.
pub struct StudyCardView {
    pub card_id: u128,
    pub card: CardView,
    pub memory: MemoryHistoryView,
}

impl StudyCardView {
    /// A study card that was never reviewed.
    pub open spec fn fresh(card_id: u128, card: CardView) -> StudyCardView {
        StudyCardView {
            card_id,
            card,
            memory: MemoryHistoryView { logs: Seq::empty(), current: None },
        }
    }

    /// The card has never been reviewed.
    pub open spec fn is_new(self) -> bool {
        self.memory.current is None
    }

    /// The card is to be studied at the instant `now`: it is new, or its
    /// state is due.
    pub open spec fn needs_study(self, now: i64) -> bool {
        match self.memory.current {
            None => true,
            Some(state) => state.due_at <= now,
        }
    }

    /// The study card after one more review.
    pub open spec fn reviewed(self, state: MemoryState, log: ReviewLog) -> StudyCardView {
        StudyCardView { memory: self.memory.reviewed(state, log), ..self }
    }
}

/// A card in a learner's collection: the card, its identity and the history
/// of its study.
#[derive(Debug, PartialEq, Eq)]
pub struct StudyCard {
    card_id: u128,
    card: Card,
    memory_history: MemoryHistory,
}

impl View for StudyCard {
    type V = StudyCardView;

    closed spec fn view(&self) -> StudyCardView {
        StudyCardView {
            card_id: self.card_id,
            card: self.card@,
            memory: self.memory_history@,
        }
    }
}

impl Clone for StudyCard {
    fn clone(&self) -> (copy: StudyCard)
        ensures
            copy@ == self@,
    {
        StudyCard {
            card_id: self.card_id,
            card: self.card.clone(),
            memory_history: self.memory_history.clone(),
        }
    }
}

impl StudyCard {
    /// Wraps `card` under a newly drawn identity, with no review yet.
    pub fn new(card: Card) -> (study_card: StudyCard)
        ensures
            study_card@ == StudyCardView::fresh(study_card@.card_id, card@),
    {
        StudyCard::with_id(fresh_id(), card)
    }

    /// Wraps `card` under the identity `card_id`, with no review yet.
    pub fn with_id(card_id: u128, card: Card) -> (study_card: StudyCard)
        ensures
            study_card@ == StudyCardView::fresh(card_id, card@),
    {
        StudyCard { card_id, card, memory_history: MemoryHistory::new() }
    }

    /// Puts a stored study card back together.
    pub fn restore(card_id: u128, card: Card, memory_history: MemoryHistory) -> (study_card:
        StudyCard)
        ensures
            study_card@ == (StudyCardView { card_id, card: card@, memory: memory_history@ }),
    {
        StudyCard { card_id, card, memory_history }
    }

    pub fn card_id(&self) -> (card_id: u128)
        ensures
            card_id == self@.card_id,
    {
        self.card_id
    }

    pub fn card(&self) -> (card: &Card)
        ensures
            card@ == self@.card,
    {
        &self.card
    }

    pub fn memory(&self) -> (memory: &MemoryHistory)
        ensures
            memory@ == self@.memory,
    {
        &self.memory_history
    }

    /// Records one review in the card's history.
    pub(crate) fn add_review(&mut self, memory_state: MemoryState, review: ReviewLog)
        ensures
            final(self)@ == old(self)@.reviewed(memory_state, review),
    {
        self.memory_history.add_review(memory_state, review);
    }
}

} // verus!
