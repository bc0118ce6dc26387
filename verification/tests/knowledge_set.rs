use keikaku::domain::error::KeikakuError;
use keikaku::domain::knowledge::card::{
    Card, ExampleKanjiWord, ExamplePhrase, GrammarRuleCard, KanjiCard, StudyCard, VocabularyCard,
};
use keikaku::domain::knowledge::daily_history::DailyHistoryItem;
use keikaku::domain::knowledge::knowledge_set::KnowledgeSet;
use keikaku::domain::memory::{Difficulty, MemoryHistory, MemoryState, Rating, ReviewLog, Stability};
use keikaku::domain::value_objects::{Answer, Question};

fn vocabulary(word: &str, meaning: &str) -> Card {
    Card::Vocabulary(VocabularyCard::new(
        Question::new(word.to_string()).unwrap(),
        Answer::new(meaning.to_string()).unwrap(),
        vec![ExamplePhrase::new(format!("{word}です"), format!("it is {meaning}"))],
    ))
}

fn kanji(character: &str, meaning: &str) -> Card {
    Card::Kanji(KanjiCard::new(
        Question::new(character.to_string()).unwrap(),
        Answer::new(meaning.to_string()).unwrap(),
        vec![ExampleKanjiWord::new(format!("{character}語"), "word".to_string())],
    ))
}

fn grammar(title: &str, text: &str) -> Card {
    Card::Grammar(GrammarRuleCard::new(
        Question::new(title.to_string()).unwrap(),
        Answer::new(text.to_string()).unwrap(),
    ))
}

fn state(stability: u64, difficulty: u64, due_at: i64) -> MemoryState {
    MemoryState::new(
        Stability::new(stability).unwrap(),
        Difficulty::new(difficulty).unwrap(),
        due_at,
    )
}

fn questions(cards: &[Card]) -> Vec<String> {
    cards.iter().map(|c| c.question().text().to_string()).collect()
}

#[test]
fn new_set_is_empty() {
    let set = KnowledgeSet::new_at(1_700_000_000_000);
    assert_eq!(set.len(), 0);
    assert_eq!(set.daily_history().timestamp(), 1_700_000_000_000);
    assert_eq!(set.daily_history().lessons_completed(), 0);
    assert!(set.cards_to_fixation_at(0).is_empty());
}

#[test]
fn third_card_with_the_question_of_the_first_is_a_duplicate() {
    let mut set = KnowledgeSet::new_at(0);
    assert!(set.create_card(vocabulary("猫", "cat")).is_ok());
    assert!(set.create_card(vocabulary("犬", "dog")).is_ok());
    let third = set.create_card(vocabulary("猫", "kitty"));
    assert_eq!(third, Err(KeikakuError::DuplicateCard { question: "猫".to_string() }));
    assert_eq!(set.len(), 2);
    assert_eq!(questions(&set.cards_to_fixation_at(0)), vec!["猫", "犬"]);
}

#[test]
fn duplicate_is_found_across_kinds_of_card() {
    let mut set = KnowledgeSet::new_at(0);
    set.create_card_with_id(kanji("猫", "cat"), 1).unwrap();
    let again = set.create_card_with_id(grammar("猫", "a rule"), 2);
    assert!(matches!(again, Err(KeikakuError::DuplicateCard { .. })));
    assert_eq!(set.len(), 1);
    assert_eq!(set.get_card(1).unwrap().card().answer().text(), "cat");
}

#[test]
fn created_card_is_returned_and_stored() {
    let mut set = KnowledgeSet::new_at(0);
    let created = set.create_card_with_id(vocabulary("本", "book"), 42).unwrap();
    assert_eq!(created.card_id(), 42);
    assert_eq!(created.card().question().text(), "本");
    assert!(created.memory().is_new());
    assert_eq!(set.get_card(42), Some(&created));
    assert_eq!(set.position_of(42), Some(0));
    assert_eq!(set.position_of(43), None);
}

#[test]
fn drawn_identities_differ() {
    let mut set = KnowledgeSet::new_at(0);
    let a = set.create_card(vocabulary("一", "one")).unwrap();
    let b = set.create_card(vocabulary("二", "two")).unwrap();
    assert_ne!(a.card_id(), b.card_id());
    assert_eq!(set.len(), 2);
}

#[test]
fn taken_identity_is_refused() {
    let mut set = KnowledgeSet::new_at(0);
    set.create_card_with_id(vocabulary("一", "one"), 7).unwrap();
    let clash = set.create_card_with_id(vocabulary("二", "two"), 7);
    assert!(matches!(clash, Err(KeikakuError::InvalidValues { .. })));
    assert_eq!(set.len(), 1);
}

#[test]
fn deleting_twice_fails_the_second_time() {
    let mut set = KnowledgeSet::new_at(0);
    set.create_card_with_id(vocabulary("一", "one"), 1).unwrap();
    set.create_card_with_id(vocabulary("二", "two"), 2).unwrap();
    set.create_card_with_id(vocabulary("三", "three"), 3).unwrap();
    assert_eq!(set.delete_card(2), Ok(()));
    assert_eq!(set.len(), 2);
    assert_eq!(set.delete_card(2), Err(KeikakuError::CardNotFound { card_id: 2 }));
    assert_eq!(set.len(), 2);
    assert_eq!(set.position_of(1), Some(0));
    assert_eq!(set.position_of(3), Some(1));
}

#[test]
fn deleted_question_can_be_created_again() {
    let mut set = KnowledgeSet::new_at(0);
    set.create_card_with_id(vocabulary("一", "one"), 1).unwrap();
    set.delete_card(1).unwrap();
    assert!(set.create_card_with_id(vocabulary("一", "one"), 2).is_ok());
}

#[test]
fn rating_a_new_card_records_one_review() {
    let mut set = KnowledgeSet::new_at(0);
    set.create_card_with_id(vocabulary("猫", "cat"), 1).unwrap();
    let next = state(3_000, 5_500, 2_000);
    assert_eq!(set.rate_card_at(1_000, 1, Rating::Good, 86_400_000, next), Ok(()));
    let memory = set.get_card(1).unwrap().memory();
    assert_eq!(memory.len(), 1);
    assert_eq!(memory.current_state(), Some(next));
    let log = memory.last_log().unwrap();
    assert_eq!(log, ReviewLog::new(1_000, Rating::Good, 86_400_000, next));
    assert_eq!(memory.current_state(), Some(log.resulting_state()));
    assert!(!memory.is_new());
    assert_eq!(set.statistics().new_words, 0);
    assert_eq!(set.statistics().in_progress_words, 1);
}

#[test]
fn rating_stamps_the_review_with_the_present_time() {
    let mut set = KnowledgeSet::new_at(0);
    set.create_card_with_id(vocabulary("猫", "cat"), 1).unwrap();
    let next = state(3_000, 5_500, 2_000);
    assert_eq!(set.rate_card(1, Rating::Hard, 10, next), Ok(()));
    let log = set.get_card(1).unwrap().memory().last_log().unwrap();
    assert!(log.timestamp() > 1_600_000_000_000);
    assert_eq!(log.rating(), Rating::Hard);
    assert_eq!(log.interval(), 10);
    assert_eq!(log.resulting_state(), next);
}

#[test]
fn rating_an_unknown_card_changes_nothing() {
    let mut set = KnowledgeSet::new_at(5);
    set.create_card_with_id(vocabulary("猫", "cat"), 1).unwrap();
    set.rate_card_at(10, 1, Rating::Easy, 1, state(1_000, 1_000, 20)).unwrap();
    set.add_lesson_duration(60_000);
    let before = format!("{set:?}");
    let rated = set.rate_card_at(30, 99, Rating::Good, 1, state(2_000, 2_000, 40));
    assert_eq!(rated, Err(KeikakuError::CardNotFound { card_id: 99 }));
    assert_eq!(format!("{set:?}"), before);
    let rated = set.rate_card(99, Rating::Good, 1, state(2_000, 2_000, 40));
    assert_eq!(rated, Err(KeikakuError::CardNotFound { card_id: 99 }));
    assert_eq!(format!("{set:?}"), before);
}

#[test]
fn history_grows_by_one_review_for_each_rating() {
    let mut set = KnowledgeSet::new_at(0);
    set.create_card_with_id(vocabulary("猫", "cat"), 1).unwrap();
    set.create_card_with_id(vocabulary("犬", "dog"), 2).unwrap();
    let times = [10, 10, 25, 40];
    for (n, time) in times.iter().enumerate() {
        let next = state(1_000 + n as u64, 2_000, time + 100);
        set.rate_card_at(*time, 1, Rating::Good, 5, next).unwrap();
        let memory = set.get_card(1).unwrap().memory();
        assert_eq!(memory.len(), n + 1);
        assert_eq!(memory.current_state(), Some(next));
        assert!(memory.is_consistent());
        assert!(memory.is_chronological());
    }
    let stamps: Vec<i64> =
        set.get_card(1).unwrap().memory().logs().iter().map(|l| l.timestamp()).collect();
    assert_eq!(stamps, vec![10, 10, 25, 40]);
    assert!(set.get_card(2).unwrap().memory().is_new());
}

#[test]
fn a_clock_set_back_is_recorded_as_it_reads() {
    let mut set = KnowledgeSet::new_at(0);
    set.create_card_with_id(vocabulary("猫", "cat"), 1).unwrap();
    set.rate_card_at(10, 1, Rating::Good, 5, state(1_000, 2_000, 100)).unwrap();
    set.rate_card_at(5, 1, Rating::Good, 5, state(1_500, 2_000, 100)).unwrap();
    let memory = set.get_card(1).unwrap().memory();
    assert_eq!(memory.len(), 2);
    assert!(memory.is_consistent());
    assert!(!memory.is_chronological());
}

#[test]
fn fixation_takes_the_due_and_the_new_card() {
    let t = 1_000_000;
    let mut set = KnowledgeSet::new_at(0);
    set.create_card_with_id(vocabulary("過去", "past"), 1).unwrap();
    set.create_card_with_id(vocabulary("未来", "future"), 2).unwrap();
    set.create_card_with_id(vocabulary("新", "new"), 3).unwrap();
    set.rate_card_at(0, 1, Rating::Good, 1, state(1_000, 5_000, t - 1)).unwrap();
    set.rate_card_at(0, 2, Rating::Good, 1, state(1_000, 5_000, t + 1)).unwrap();
    assert_eq!(questions(&set.cards_to_fixation_at(t)), vec!["過去", "新"]);
    assert_eq!(set.fixation_order_at(t), vec![0, 2]);
    assert_eq!(set.get_card(1).unwrap().memory().current_state().unwrap().due_at(), t - 1);
}

#[test]
fn fixation_takes_a_card_due_at_this_very_instant() {
    let mut set = KnowledgeSet::new_at(0);
    set.create_card_with_id(vocabulary("今", "now"), 1).unwrap();
    set.rate_card_at(0, 1, Rating::Good, 1, state(1_000, 5_000, 500)).unwrap();
    assert_eq!(set.fixation_order_at(499), Vec::<usize>::new());
    assert_eq!(set.fixation_order_at(500), vec![0]);
}

#[test]
fn fixation_orders_by_due_time_then_by_creation() {
    let mut set = KnowledgeSet::new_at(0);
    for (id, word) in ["一", "二", "三", "四", "五", "六"].iter().enumerate() {
        set.create_card_with_id(vocabulary(word, "n"), id as u128).unwrap();
    }
    set.rate_card_at(0, 0, Rating::Good, 1, state(1_000, 5_000, 300)).unwrap();
    set.rate_card_at(0, 2, Rating::Good, 1, state(1_000, 5_000, 100)).unwrap();
    set.rate_card_at(0, 3, Rating::Good, 1, state(1_000, 5_000, 300)).unwrap();
    set.rate_card_at(0, 5, Rating::Good, 1, state(1_000, 5_000, 900)).unwrap();
    assert_eq!(set.fixation_order_at(400), vec![2, 0, 3, 1, 4]);
    assert_eq!(questions(&set.cards_to_fixation_at(400)), vec!["三", "一", "四", "二", "五"]);
    assert_eq!(set.fixation_order_at(1_000), vec![2, 0, 3, 5, 1, 4]);
    assert_eq!(set.fixation_order_at(50), vec![1, 4]);
}

#[test]
fn fixation_read_now_holds_the_new_cards() {
    let mut set = KnowledgeSet::new_at(0);
    set.create_card_with_id(vocabulary("一", "one"), 1).unwrap();
    set.create_card_with_id(vocabulary("二", "two"), 2).unwrap();
    set.rate_card_at(0, 1, Rating::Good, 1, state(1_000, 5_000, i64::MAX)).unwrap();
    let before = format!("{set:?}");
    assert_eq!(questions(&set.cards_to_fixation()), vec!["二"]);
    assert_eq!(format!("{set:?}"), before);
}

#[test]
fn lesson_durations_add_up() {
    let mut set = KnowledgeSet::new_at(0);
    set.add_lesson_duration(90_000);
    set.add_lesson_duration(30_000);
    assert_eq!(set.daily_history().total_duration(), 120_000);
    set.update_daily_history();
    set.add_lesson_duration(1);
    assert_eq!(set.daily_history().total_duration(), 120_001);
    assert_eq!(set.daily_history().lessons_completed(), 1);
}

#[test]
fn restore_checks_the_cards() {
    let history = DailyHistoryItem::new_at(0);
    let good = vec![
        StudyCard::restore(1, vocabulary("一", "one"), MemoryHistory::new()),
        StudyCard::restore(
            2,
            vocabulary("二", "two"),
            MemoryHistory::from_logs(vec![ReviewLog::new(
                5,
                Rating::Again,
                1,
                state(1_000, 9_000, 6),
            )]),
        ),
    ];
    let set = KnowledgeSet::restore(good, history).unwrap();
    assert_eq!(set.len(), 2);
    assert_eq!(set.get_card(2).unwrap().memory().current_state(), Some(state(1_000, 9_000, 6)));

    let same_question = vec![
        StudyCard::restore(1, vocabulary("一", "one"), MemoryHistory::new()),
        StudyCard::restore(2, vocabulary("一", "uno"), MemoryHistory::new()),
    ];
    assert_eq!(
        KnowledgeSet::restore(same_question, history),
        Err(KeikakuError::DuplicateCard { question: "一".to_string() })
    );

    let same_id = vec![
        StudyCard::restore(1, vocabulary("一", "one"), MemoryHistory::new()),
        StudyCard::restore(1, vocabulary("二", "two"), MemoryHistory::new()),
    ];
    assert!(matches!(
        KnowledgeSet::restore(same_id, history),
        Err(KeikakuError::InvalidValues { .. })
    ));
}

#[test]
fn a_copy_of_a_set_equals_it_and_lives_apart() {
    let mut set = KnowledgeSet::new_at(3);
    set.create_card_with_id(vocabulary("一", "one"), 1).unwrap();
    set.rate_card_at(4, 1, Rating::Good, 1, state(1_000, 2_000, 9)).unwrap();
    set.add_lesson_duration(12);
    let copy = set.clone();
    assert_eq!(copy, set);
    set.delete_card(1).unwrap();
    assert_eq!(copy.len(), 1);
    assert_eq!(copy.get_card(1).unwrap().memory().len(), 1);
    assert_ne!(copy, set);
}

#[test]
fn lesson_introduces_the_cards_never_reviewed() {
    let mut set = KnowledgeSet::new_at(0);
    set.create_card_with_id(vocabulary("一", "one"), 10).unwrap();
    set.create_card_with_id(vocabulary("二", "two"), 20).unwrap();
    set.create_card_with_id(vocabulary("三", "three"), 30).unwrap();
    set.rate_card_at(0, 20, Rating::Good, 1, state(1_000, 5_000, 0)).unwrap();
    let lesson = set.cards_to_lesson();
    let ids: Vec<u128> = lesson.iter().map(|(id, _)| *id).collect();
    let words: Vec<&str> = lesson.iter().map(|(_, card)| card.question().text()).collect();
    assert_eq!(ids, vec![10, 30]);
    assert_eq!(words, vec!["一", "三"]);
    assert!(KnowledgeSet::new_at(0).cards_to_lesson().is_empty());
}

#[test]
fn refusals_say_why() {
    let mut set = KnowledgeSet::new_at(0);
    set.create_card_with_id(vocabulary("一", "one"), 7).unwrap();
    assert_eq!(
        set.create_card_with_id(vocabulary("二", "two"), 7),
        Err(KeikakuError::InvalidValues { reason: "card identity is already in use".to_string() })
    );
}

#[test]
fn fixation_lists_no_card_twice_and_only_cards_of_the_set() {
    let mut set = KnowledgeSet::new_at(0);
    for id in 0..20u128 {
        set.create_card_with_id(vocabulary(&format!("語{id}"), "word"), id).unwrap();
        if id % 3 != 0 {
            let due = (id as i64 * 7) % 11;
            set.rate_card_at(0, id, Rating::Good, 1, state(1_000, 5_000, due)).unwrap();
        }
    }
    for now in [-1, 0, 3, 5, 10, 11] {
        let order = set.fixation_order_at(now);
        let mut seen = order.clone();
        seen.sort();
        seen.dedup();
        assert_eq!(seen.len(), order.len());
        for position in 0..set.len() {
            let card = &set.study_cards()[position];
            let wanted = match card.memory().current_state() {
                None => true,
                Some(state) => state.due_at() <= now,
            };
            assert_eq!(order.contains(&position), wanted);
        }
        assert_eq!(set.cards_to_fixation_at(now).len(), order.len());
    }
}

#[test]
fn cards_are_found_by_identity_after_any_change() {
    let mut set = KnowledgeSet::new_at(0);
    for id in 1..=6u128 {
        set.create_card_with_id(vocabulary(&format!("語{id}"), "word"), id * 10).unwrap();
    }
    set.delete_card(30).unwrap();
    set.delete_card(10).unwrap();
    set.rate_card_at(1, 50, Rating::Good, 1, state(1_000, 5_000, 9)).unwrap();
    set.create_card_with_id(vocabulary("新", "new"), 30).unwrap();
    set.delete_card(60).unwrap();
    let expected = [(20u128, 0usize), (40, 1), (50, 2), (30, 3)];
    assert_eq!(set.len(), expected.len());
    for (id, place) in expected {
        assert_eq!(set.position_of(id), Some(place));
        assert_eq!(set.get_card(id).unwrap().card_id(), id);
        assert_eq!(set.study_cards()[place].card_id(), id);
    }
    for gone in [10u128, 60, 0, 70] {
        assert_eq!(set.position_of(gone), None);
        assert_eq!(set.get_card(gone), None);
    }
    assert_eq!(set.get_card(50).unwrap().memory().len(), 1);
    assert_eq!(set.get_card(30).unwrap().card().question().text(), "新");
    let copy = set.clone();
    assert_eq!(copy.position_of(30), Some(3));
    assert_eq!(copy, set);
    let restored =
        KnowledgeSet::restore(set.study_cards().clone(), *set.daily_history()).unwrap();
    assert_eq!(restored.position_of(50), Some(2));
    assert_eq!(restored, set);
}
