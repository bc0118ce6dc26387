//! The learner: the root through which a knowledge set is changed.

use vstd::prelude::*;
use crate::domain::error::KeikakuError;
use crate::domain::identity::fresh_id;
use crate::domain::knowledge::card::{Card, StudyCard, StudyCardView};
use crate::domain::knowledge::daily_history::DailyHistoryView;
use crate::domain::knowledge::knowledge_set::{KnowledgeSet, KnowledgeSetView};
use crate::domain::memory::{MemoryState, Rating, ReviewLog};
use crate::domain::settings::{LlmSettingsView, UserSettings};
use crate::domain::value_objects::{JapaneseLevel, NativeLanguage};

verus! {

/// What a user holds.
pub struct UserView {
    pub id: u128,
    pub username: Seq<char>,
    pub native_language: NativeLanguage,
    pub current_japanese_level: JapaneseLevel,
    pub settings: LlmSettingsView,
    pub knowledge_set: KnowledgeSetView,
}

impl UserView {
    pub open spec fn wf(self) -> bool {
        self.knowledge_set.wf()
    }

    /// The same user with another knowledge set.
    pub open spec fn with_knowledge_set(self, knowledge_set: KnowledgeSetView) -> UserView {
        UserView { knowledge_set, ..self }
    }
}

/// A learner and everything they own. A user is loaded, changed through the
/// methods below, and saved as a whole.
#[derive(Debug, PartialEq, Eq)]
pub struct User {
    id: u128,
    username: String,
    native_language: NativeLanguage,
    current_japanese_level: JapaneseLevel,
    settings: UserSettings,
    knowledge_set: KnowledgeSet,
}

impl View for User {
    type V = UserView;

    closed spec fn view(&self) -> UserView {
        UserView {
            id: self.id,
            username: self.username@,
            native_language: self.native_language,
            current_japanese_level: self.current_japanese_level,
            settings: self.settings@,
            knowledge_set: self.knowledge_set@,
        }
    }
}

impl Clone for User {
    fn clone(&self) -> (copy: User)
        ensures
            copy@ == self@,
    {
        User {
            id: self.id,
            username: self.username.clone(),
            native_language: self.native_language,
            current_japanese_level: self.current_japanese_level,
            settings: self.settings.clone(),
            knowledge_set: self.knowledge_set.clone(),
        }
    }
}

impl User {
    /// A new learner under a newly drawn identity, with no card and no
    /// settings.
    pub fn new(
        username: String,
        current_japanese_level: JapaneseLevel,
        native_language: NativeLanguage,
    ) -> (user: User)
        ensures
            user@.username == username@,
            user@.current_japanese_level == current_japanese_level,
            user@.native_language == native_language,
            user@.settings is Disabled,
            user@.knowledge_set.cards == Seq::<StudyCardView>::empty(),
            user@.knowledge_set.daily_history == DailyHistoryView::blank(
                user@.knowledge_set.daily_history.timestamp,
            ),
            user@.wf(),
    {
        User {
            id: fresh_id(),
            username,
            knowledge_set: KnowledgeSet::new(),
            current_japanese_level,
            native_language,
            settings: UserSettings::empty(),
        }
    }

    /// Puts a stored user back together.
    pub fn restore(
        id: u128,
        username: String,
        current_japanese_level: JapaneseLevel,
        native_language: NativeLanguage,
        settings: UserSettings,
        knowledge_set: KnowledgeSet,
    ) -> (user: User)
        ensures
            user@ == (UserView {
                id,
                username: username@,
                native_language,
                current_japanese_level,
                settings: settings@,
                knowledge_set: knowledge_set@,
            }),
    {
        User { id, username, native_language, current_japanese_level, settings, knowledge_set }
    }

    pub fn id(&self) -> (id: u128)
        ensures
            id == self@.id,
    {
        self.id
    }

    pub fn username(&self) -> (username: &str)
        ensures
            username@ == self@.username,
    {
        self.username.as_str()
    }

    pub fn current_japanese_level(&self) -> (level: &JapaneseLevel)
        ensures
            *level == self@.current_japanese_level,
    {
        &self.current_japanese_level
    }

    pub fn native_language(&self) -> (language: &NativeLanguage)
        ensures
            *language == self@.native_language,
    {
        &self.native_language
    }

    pub fn knowledge_set(&self) -> (knowledge_set: &KnowledgeSet)
        ensures
            knowledge_set@ == self@.knowledge_set,
    {
        &self.knowledge_set
    }

    pub fn settings(&self) -> (settings: &UserSettings)
        ensures
            settings@ == self@.settings,
    {
        &self.settings
    }

    /// The settings, to be changed in place. Nothing else of the user can be
    /// reached through them.
    pub fn settings_mut(&mut self) -> (settings: &mut UserSettings)
        ensures
            settings@ == old(self)@.settings,
            final(self)@ == (UserView { settings: final(settings)@, ..old(self)@ }),
    {
        &mut self.settings
    }

    /// Records a review of one of the user's cards, stamped with the present
    /// time. See [`KnowledgeSet::rate_card`].
    pub fn rate_card(
        &mut self,
        card_id: u128,
        rating: Rating,
        interval: i64,
        memory_state: MemoryState,
    ) -> (rated: Result<(), KeikakuError>)
        requires
            old(self)@.wf(),
        ensures
            final(self)@.wf(),
            !old(self)@.knowledge_set.has_card(card_id) ==> {
                &&& final(self)@ == old(self)@
                &&& rated == Err::<(), KeikakuError>(KeikakuError::CardNotFound { card_id })
            },
            old(self)@.knowledge_set.has_card(card_id) ==> {
                &&& rated is Ok
                &&& exists|now: i64|
                    final(self)@ == old(self)@.with_knowledge_set(
                        old(self)@.knowledge_set.after_rating(
                            card_id,
                            #[trigger] ReviewLog::at(now, rating, interval, memory_state),
                        ),
                    )
            },
    {
        self.knowledge_set.rate_card(card_id, rating, interval, memory_state)
    }

    /// Records, as of the instant `now`, a review of one of the user's cards.
    /// See [`KnowledgeSet::rate_card_at`].
    pub fn rate_card_at(
        &mut self,
        now: i64,
        card_id: u128,
        rating: Rating,
        interval: i64,
        memory_state: MemoryState,
    ) -> (rated: Result<(), KeikakuError>)
        requires
            old(self)@.wf(),
        ensures
            final(self)@.wf(),
            final(self)@ == old(self)@.with_knowledge_set(
                old(self)@.knowledge_set.after_rating(
                    card_id,
                    ReviewLog::at(now, rating, interval, memory_state),
                ),
            ),
            old(self)@.knowledge_set.has_card(card_id) ==> rated is Ok,
            !old(self)@.knowledge_set.has_card(card_id) ==> rated == Err::<(), KeikakuError>(
                KeikakuError::CardNotFound { card_id },
            ),
    {
        self.knowledge_set.rate_card_at(now, card_id, rating, interval, memory_state)
    }

    /// Adds the length of one lesson, in milliseconds, to the time studied.
    pub fn add_lesson_duration(&mut self, lesson_duration: i64)
        requires
            i64::MIN <= old(self)@.knowledge_set.daily_history.total_duration + lesson_duration
                <= i64::MAX,
        ensures
            final(self)@ == old(self)@.with_knowledge_set(
                old(self)@.knowledge_set.after_lesson(lesson_duration),
            ),
    {
        self.knowledge_set.add_lesson_duration(lesson_duration);
    }

    /// Removes one of the user's cards. See [`KnowledgeSet::delete_card`].
    pub fn delete_card(&mut self, card_id: u128) -> (deleted: Result<(), KeikakuError>)
        requires
            old(self)@.wf(),
        ensures
            final(self)@.wf(),
            final(self)@ == old(self)@.with_knowledge_set(
                old(self)@.knowledge_set.after_delete(card_id),
            ),
            old(self)@.knowledge_set.has_card(card_id) ==> deleted is Ok,
            !old(self)@.knowledge_set.has_card(card_id) ==> deleted == Err::<(), KeikakuError>(
                KeikakuError::CardNotFound { card_id },
            ),
    {
        self.knowledge_set.delete_card(card_id)
    }

    /// Adds a card to the user's collection. See
    /// [`KnowledgeSet::create_card`].
    pub fn create_card(&mut self, card: Card) -> (created: Result<StudyCard, KeikakuError>)
        requires
            old(self)@.wf(),
        ensures
            final(self)@.wf(),
            old(self)@.knowledge_set.cards.len() == 0 ==> created is Ok,
            old(self)@.knowledge_set.has_question(card@.question()) ==> {
                &&& final(self)@ == old(self)@
                &&& created matches Err(KeikakuError::DuplicateCard { question })
                &&& question@ == card@.question()
            },
            !old(self)@.knowledge_set.has_question(card@.question()) ==> match created {
                Ok(study_card) => {
                    &&& !old(self)@.knowledge_set.has_card(study_card@.card_id)
                    &&& study_card@ == StudyCardView::fresh(study_card@.card_id, card@)
                    &&& final(self)@ == old(self)@.with_knowledge_set(
                        old(self)@.knowledge_set.with_card(study_card@),
                    )
                },
                Err(error) => {
                    &&& error matches KeikakuError::InvalidValues { reason }
                    &&& reason@ == "card identity is already in use"@
                    &&& final(self)@ == old(self)@
                },
            },
    {
        self.knowledge_set.create_card(card)
    }
}

} // verus!
