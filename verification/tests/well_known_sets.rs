use keikaku::application::import::{ImportJlptRecommendedResult, WellKnownSetInfo};
use keikaku::domain::error::KeikakuError;
use keikaku::domain::value_objects::{JapaneseLevel, NativeLanguage};
use keikaku::domain::well_known_set::catalogue::{get_all_sets, migii_lesson_count, WellKnownSets};
use keikaku::domain::well_known_set::{WellKnownSet, WellKnownSetContent};

fn content(title: &str, description: &str) -> WellKnownSetContent {
    WellKnownSetContent::new(title.to_string(), description.to_string())
}

fn n5() -> WellKnownSet {
    WellKnownSet::new(
        JapaneseLevel::N5,
        vec!["猫".to_string(), "犬".to_string()],
        vec![
            (NativeLanguage::Russian, content("JLPT N5", "Слова уровня N5")),
            (NativeLanguage::English, content("JLPT N5", "Words of level N5")),
        ],
    )
    .unwrap()
}

#[test]
fn word_list_hands_out_what_it_holds() {
    let set = n5();
    assert_eq!(set.level(), &JapaneseLevel::N5);
    assert_eq!(set.words(), &["猫".to_string(), "犬".to_string()]);
    assert_eq!(set.content(&NativeLanguage::English).title(), "JLPT N5");
    assert_eq!(set.content(&NativeLanguage::English).description(), "Words of level N5");
    assert_eq!(set.content(&NativeLanguage::Russian).description(), "Слова уровня N5");
    assert_eq!(
        set.find_content(&NativeLanguage::Russian),
        Some(&content("JLPT N5", "Слова уровня N5"))
    );
}

#[test]
fn word_list_may_lack_a_language() {
    let set = WellKnownSet::new(
        JapaneseLevel::N1,
        Vec::new(),
        vec![(NativeLanguage::English, content("t", "d"))],
    )
    .unwrap();
    assert_eq!(set.find_content(&NativeLanguage::Russian), None);
    assert_eq!(set.find_content(&NativeLanguage::English), Some(&content("t", "d")));
    assert!(set.words().is_empty());
}

#[test]
fn word_list_refuses_two_presentations_in_one_language() {
    let twice = WellKnownSet::new(
        JapaneseLevel::N5,
        Vec::new(),
        vec![
            (NativeLanguage::English, content("a", "b")),
            (NativeLanguage::Russian, content("c", "d")),
            (NativeLanguage::English, content("e", "f")),
        ],
    );
    assert!(matches!(twice, Err(KeikakuError::WellKnownSetError { .. })));
}

#[test]
fn all_sets_are_listed_in_order() {
    let sets = get_all_sets();
    assert_eq!(sets.len(), 153);
    assert_eq!(sets[0], WellKnownSets::Jlpt { level: JapaneseLevel::N5 });
    assert_eq!(sets[4], WellKnownSets::Jlpt { level: JapaneseLevel::N1 });
    assert_eq!(sets[5], WellKnownSets::Migii { level: JapaneseLevel::N5, lesson: 1 });
    assert_eq!(sets[24], WellKnownSets::Migii { level: JapaneseLevel::N5, lesson: 20 });
    assert_eq!(sets[25], WellKnownSets::Migii { level: JapaneseLevel::N4, lesson: 1 });
    assert_eq!(sets[35], WellKnownSets::Migii { level: JapaneseLevel::N4, lesson: 11 });
    assert_eq!(sets[36], WellKnownSets::Migii { level: JapaneseLevel::N3, lesson: 1 });
    assert_eq!(sets[66], WellKnownSets::Migii { level: JapaneseLevel::N3, lesson: 31 });
    assert_eq!(sets[67], WellKnownSets::Migii { level: JapaneseLevel::N2, lesson: 1 });
    assert_eq!(sets[96], WellKnownSets::Migii { level: JapaneseLevel::N2, lesson: 30 });
    assert_eq!(sets[97], WellKnownSets::Migii { level: JapaneseLevel::N1, lesson: 1 });
    assert_eq!(sets[152], WellKnownSets::Migii { level: JapaneseLevel::N1, lesson: 56 });
    for (i, set) in sets.iter().enumerate() {
        assert!(set.is_offered());
        assert!(!sets[..i].contains(set));
    }
}

#[test]
fn lessons_are_counted_by_level() {
    assert_eq!(migii_lesson_count(JapaneseLevel::N5), 20);
    assert_eq!(migii_lesson_count(JapaneseLevel::N4), 11);
    assert_eq!(migii_lesson_count(JapaneseLevel::N3), 31);
    assert_eq!(migii_lesson_count(JapaneseLevel::N2), 30);
    assert_eq!(migii_lesson_count(JapaneseLevel::N1), 56);
    assert!(!WellKnownSets::Migii { level: JapaneseLevel::N4, lesson: 0 }.is_offered());
    assert!(WellKnownSets::Migii { level: JapaneseLevel::N4, lesson: 11 }.is_offered());
    assert!(!WellKnownSets::Migii { level: JapaneseLevel::N4, lesson: 12 }.is_offered());
    assert!(WellKnownSets::Jlpt { level: JapaneseLevel::N2 }.is_offered());
    assert_eq!(WellKnownSets::Jlpt { level: JapaneseLevel::N2 }.level(), JapaneseLevel::N2);
    assert_eq!(
        WellKnownSets::Migii { level: JapaneseLevel::N3, lesson: 3 }.level(),
        JapaneseLevel::N3
    );
}

#[test]
fn a_list_is_described_in_the_language_of_the_learner() {
    let name = WellKnownSets::Jlpt { level: JapaneseLevel::N5 };
    let info = WellKnownSetInfo::describe(name, &n5(), &NativeLanguage::Russian);
    assert_eq!(
        info,
        WellKnownSetInfo {
            set: name,
            title: "JLPT N5".to_string(),
            description: "Слова уровня N5".to_string(),
        }
    );
}

#[test]
fn import_counts_created_cards_and_keeps_skipped_words() {
    let mut result = ImportJlptRecommendedResult::new();
    assert_eq!(result.total_created_count, 0);
    assert!(result.skipped_words.is_empty());
    result.record("猫".to_string(), true);
    result.record("犬".to_string(), false);
    let created: Result<u8, KeikakuError> = Ok(1);
    let duplicate: Result<u8, KeikakuError> =
        Err(KeikakuError::DuplicateCard { question: "鳥".to_string() });
    let failed: Result<u8, KeikakuError> = Err(KeikakuError::LlmError { reason: "down".to_string() });
    result.record_attempt("魚".to_string(), &created);
    result.record_attempt("鳥".to_string(), &duplicate);
    result.record_attempt("馬".to_string(), &failed);
    assert_eq!(
        result,
        ImportJlptRecommendedResult {
            total_created_count: 2,
            skipped_words: vec!["犬".to_string(), "鳥".to_string(), "馬".to_string()],
        }
    );
}

#[test]
fn a_copy_of_a_word_list_equals_it() {
    assert_eq!(n5().clone(), n5());
    assert_eq!(content("a", "b").clone(), content("a", "b"));
}
