use keikaku::application::use_cases::record_scheduled_rating;
use keikaku::domain::error::KeikakuError;
use keikaku::domain::knowledge::card::{Card, GrammarRuleCard, KanjiCard, VocabularyCard};
use keikaku::domain::knowledge::knowledge_set::KnowledgeSet;
use keikaku::domain::memory::{Difficulty, MemoryState, Rating, ReviewLog, Stability};
use keikaku::domain::user::User;
use keikaku::domain::value_objects::{Answer, JapaneseLevel, NativeLanguage, Question};
use keikaku::presentation::card_data::CardStatus;
use keikaku::presentation::services::{
    calculate_stability, determine_card_status, has_kanji_card,
};
use keikaku::presentation::style::{review_due, ReviewDue};

fn q(text: &str) -> Question {
    Question::new(text.to_string()).unwrap()
}

fn a(text: &str) -> Answer {
    Answer::new(text.to_string()).unwrap()
}

fn state(due_at: i64) -> MemoryState {
    MemoryState::new(Stability::new(4_000).unwrap(), Difficulty::new(6_000).unwrap(), due_at)
}

#[test]
fn scheduler_starts_from_the_current_state() {
    let mut set = KnowledgeSet::new_at(0);
    set.create_card_with_id(Card::Grammar(GrammarRuleCard::new(q("は"), a("topic"))), 1).unwrap();
    assert_eq!(set.current_state_of(1), Ok(None));
    set.rate_card_at(3, 1, Rating::Good, 1, state(50)).unwrap();
    assert_eq!(set.current_state_of(1), Ok(Some(state(50))));
    assert_eq!(set.current_state_of(2), Err(KeikakuError::CardNotFound { card_id: 2 }));
}

#[test]
fn scheduled_rating_is_recorded() {
    let mut user = User::new("aiko".to_string(), JapaneseLevel::N5, NativeLanguage::English);
    let id = user.create_card(Card::Grammar(GrammarRuleCard::new(q("は"), a("topic")))).unwrap();
    let id = id.card_id();
    let recorded = record_scheduled_rating(&mut user, 10, id, Rating::Hard, Ok((state(99), 7)));
    assert_eq!(recorded, Ok(()));
    let memory = user.knowledge_set().get_card(id).unwrap().memory();
    assert_eq!(memory.last_log(), Some(ReviewLog::new(10, Rating::Hard, 7, state(99))));
    assert_eq!(memory.current_state(), Some(state(99)));
}

#[test]
fn failed_scheduling_leaves_the_history_alone() {
    let mut user = User::new("aiko".to_string(), JapaneseLevel::N5, NativeLanguage::English);
    let id = user.create_card(Card::Grammar(GrammarRuleCard::new(q("は"), a("topic")))).unwrap();
    let id = id.card_id();
    user.rate_card_at(1, id, Rating::Good, 1, state(5)).unwrap();
    let before = format!("{user:?}");
    let failure = KeikakuError::SrsCalculationFailed { reason: "no parameters".to_string() };
    let recorded = record_scheduled_rating(&mut user, 10, id, Rating::Hard, Err(failure.clone()));
    assert_eq!(recorded, Err(failure));
    assert_eq!(format!("{user:?}"), before);
    let recorded = record_scheduled_rating(&mut user, 10, 404, Rating::Hard, Ok((state(9), 1)));
    assert_eq!(recorded, Err(KeikakuError::CardNotFound { card_id: 404 }));
    assert_eq!(format!("{user:?}"), before);
}

#[test]
fn review_is_told_by_its_distance() {
    assert_eq!(review_due(0), ReviewDue::Today);
    assert_eq!(review_due(1), ReviewDue::Tomorrow);
    assert_eq!(review_due(2), ReviewDue::InDays { days: 2 });
    assert_eq!(review_due(7), ReviewDue::InDays { days: 7 });
    assert_eq!(review_due(8), ReviewDue::InManyDays { days: 8 });
    assert_eq!(review_due(30), ReviewDue::InManyDays { days: 30 });
    assert_eq!(review_due(31), ReviewDue::InMonths { months: 1 });
    assert_eq!(review_due(59), ReviewDue::InMonths { months: 1 });
    assert_eq!(review_due(60), ReviewDue::InMonths { months: 2 });
    assert_eq!(review_due(365), ReviewDue::InMonths { months: 12 });
    assert_eq!(review_due(366), ReviewDue::OnDate);
    assert_eq!(review_due(-1), ReviewDue::OnDate);
    assert_eq!(review_due(i64::MIN), ReviewDue::OnDate);
    assert_eq!(review_due(i64::MAX), ReviewDue::OnDate);
}

#[test]
fn a_kanji_is_in_progress_once_its_card_exists() {
    let cards = vec![
        Card::Vocabulary(VocabularyCard::new(q("日"), a("day"), Vec::new())),
        Card::Kanji(KanjiCard::new(q("本"), a("book"), Vec::new())),
    ];
    assert!(has_kanji_card("本", &cards));
    assert!(!has_kanji_card("日", &cards));
    assert!(!has_kanji_card("本", &Vec::new()));
    assert_eq!(determine_card_status("本", &cards), CardStatus::InProgress);
    assert_eq!(determine_card_status("日", &cards), CardStatus::New);
    assert_eq!(calculate_stability("本", &cards), 50);
    assert_eq!(calculate_stability("日", &cards), 0);
}
