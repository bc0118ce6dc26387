use keikaku::domain::dictionary::KanjiInfo;
use keikaku::domain::knowledge::card::{
    Card, ExamplePhrase, GrammarRuleCard, KanjiCard as DomainKanjiCard, VocabularyCard,
};
use keikaku::domain::knowledge::statistics::{KnowledgeStatistics, LearningStatus};
use keikaku::domain::value_objects::{Answer, JapaneseLevel, Question};
use keikaku::presentation::card_data::{
    CardStatus, GrammarCard, KanjiCard, StudyCard, StudyCardWrapper, VocabCard, VocabExample,
    VocabularyCardData,
};
use keikaku::presentation::services::{
    kanji_difficulty, DashboardStats, GrammarService, StudyService, UserProfileData, UserService,
    VocabularyService, VocabularyStats,
};
use keikaku::presentation::style::{
    get_difficulty_color, get_stability_color, level_to_color, render_difficulty_stars, ChipItem,
    CircularSize, FabVariant, FilterChip, FloatingPosition, InputType, JlptLevel, ModalSize,
    NextVariant, OperationStatus, StateTone, StudyButtonType,
};

fn shown(status: CardStatus) -> VocabularyCardData {
    VocabularyCardData {
        id: "1".to_string(),
        japanese: "本".to_string(),
        reading: "ほん".to_string(),
        translation: "книга".to_string(),
        status,
        difficulty: 45,
        stability: 60,
        next_review: 0,
    }
}

#[test]
fn vocabulary_is_counted_by_stage() {
    let service = VocabularyService::new();
    let cards = vec![
        shown(CardStatus::InProgress),
        shown(CardStatus::Mastered),
        shown(CardStatus::Difficult),
        shown(CardStatus::New),
        shown(CardStatus::InProgress),
        shown(CardStatus::New),
        shown(CardStatus::New),
    ];
    assert_eq!(
        service.get_vocabulary_stats(&cards),
        VocabularyStats { total: 7, new: 3, in_progress: 2, mastered: 1, difficult: 1 }
    );
    assert_eq!(service.get_vocabulary_stats(&[]), VocabularyStats::default());
    assert_eq!(
        VocabularyStats::default(),
        VocabularyStats { total: 0, new: 0, in_progress: 0, mastered: 0, difficult: 0 }
    );
}

#[test]
fn stages_of_study_are_shown_under_their_names() {
    assert_eq!(CardStatus::from_learning_status(LearningStatus::New), CardStatus::New);
    assert_eq!(
        CardStatus::from_learning_status(LearningStatus::InProgress),
        CardStatus::InProgress
    );
    assert_eq!(CardStatus::from_learning_status(LearningStatus::Known), CardStatus::Mastered);
    assert_eq!(
        CardStatus::from_learning_status(LearningStatus::HighDifficulty),
        CardStatus::Difficult
    );
}

#[test]
fn grammar_difficulty_follows_the_level() {
    let service = GrammarService::new();
    assert_eq!(service.calculate_difficulty(&JapaneseLevel::N5), 20);
    assert_eq!(service.calculate_difficulty(&JapaneseLevel::N4), 35);
    assert_eq!(service.calculate_difficulty(&JapaneseLevel::N3), 50);
    assert_eq!(service.calculate_difficulty(&JapaneseLevel::N2), 70);
    assert_eq!(service.calculate_difficulty(&JapaneseLevel::N1), 85);
    assert_eq!(service.get_difficulty_text(&JapaneseLevel::N5), "Начальный");
    assert_eq!(service.get_difficulty_text(&JapaneseLevel::N4), "Базовый");
    assert_eq!(service.get_difficulty_text(&JapaneseLevel::N3), "Средний");
    assert_eq!(service.get_difficulty_text(&JapaneseLevel::N2), "Продвинутый");
    assert_eq!(service.get_difficulty_text(&JapaneseLevel::N1), "Эксперт");
}

#[test]
fn kanji_difficulty_adds_strokes_and_level() {
    let of = |strokes: u8, level: JapaneseLevel| {
        kanji_difficulty(&KanjiInfo::new("日".to_string(), "day".to_string(), level, strokes))
    };
    assert_eq!(of(4, JapaneseLevel::N5), 18);
    assert_eq!(of(0, JapaneseLevel::N5), 10);
    assert_eq!(of(14, JapaneseLevel::N3), 58);
    assert_eq!(of(24, JapaneseLevel::N1), 98);
    assert_eq!(of(25, JapaneseLevel::N1), 100);
    assert_eq!(of(255, JapaneseLevel::N1), 100);
    assert_eq!(of(255, JapaneseLevel::N4), 70);
}

#[test]
fn flash_card_of_a_word_carries_its_examples() {
    let card = Card::Vocabulary(VocabularyCard::new(
        Question::new("本".to_string()).unwrap(),
        Answer::new("книга".to_string()).unwrap(),
        vec![ExamplePhrase::new("本を読みます".to_string(), "Я читаю книгу".to_string())],
    ));
    assert_eq!(
        StudyService::new().convert_card_to_wrapper(&card),
        StudyCardWrapper {
            card: StudyCard::Vocab(VocabCard {
                japanese: "本".to_string(),
                reading: String::new(),
                translation: "книга".to_string(),
                examples: vec![VocabExample {
                    japanese: "本を読みます".to_string(),
                    reading: String::new(),
                    translation: "Я читаю книгу".to_string(),
                }],
            }),
        }
    );
}

#[test]
fn flash_cards_of_a_kanji_and_of_a_rule() {
    let kanji = Card::Kanji(DomainKanjiCard::new(
        Question::new("日".to_string()).unwrap(),
        Answer::new("день".to_string()).unwrap(),
        Vec::new(),
    ));
    assert_eq!(
        StudyService::new().convert_card_to_wrapper(&kanji),
        StudyCardWrapper {
            card: StudyCard::Kanji(KanjiCard {
                character: "日".to_string(),
                stroke_count: 0,
                meanings: vec!["день".to_string()],
                onyomi: Vec::new(),
                kunyomi: Vec::new(),
                radicals: Vec::new(),
            }),
        }
    );
    let rule = Card::Grammar(GrammarRuleCard::new(
        Question::new("は".to_string()).unwrap(),
        Answer::new("тема".to_string()).unwrap(),
    ));
    assert_eq!(
        StudyService::new().convert_card_to_wrapper(&rule),
        StudyCardWrapper {
            card: StudyCard::Grammar(GrammarCard {
                pattern: "は".to_string(),
                meaning: "тема".to_string(),
                attachment_rules: String::new(),
                examples: Vec::new(),
            }),
        }
    );
}

#[test]
fn dashboard_takes_its_figures_from_a_snapshot() {
    let snapshot = KnowledgeStatistics {
        avg_stability: Some(1),
        avg_difficulty: Some(2),
        total_words: 156,
        new_words: 33,
        known_words: 89,
        in_progress_words: 34,
        high_difficulty_words: 12,
    };
    assert_eq!(
        UserService::new().dashboard_stats(&snapshot, 12, 8),
        DashboardStats {
            total_cards: 156,
            learned: 89,
            in_progress: 34,
            new_cards: 33,
            difficult: 12,
            lesson_count: 12,
            fixation_count: 8,
        }
    );
    assert_eq!(DashboardStats::default().total_cards, 0);
    let profile = UserProfileData {
        username: "Изучающий".to_string(),
        email: "user@example.com".to_string(),
        current_level: JapaneseLevel::N5,
        avatar_url: None,
    };
    assert_eq!(profile.current_level, JapaneseLevel::N5);
}

#[test]
fn colours_change_every_twenty_percent() {
    let difficulty = [
        (0, "#5a8c5a"),
        (20, "#5a8c5a"),
        (21, "#66a182"),
        (40, "#66a182"),
        (41, "#b08d57"),
        (60, "#b08d57"),
        (61, "#b85450"),
        (80, "#b85450"),
        (81, "#8b2635"),
        (100, "#8b2635"),
        (101, "#666666"),
        (u32::MAX, "#666666"),
    ];
    for (value, color) in difficulty {
        assert_eq!(get_difficulty_color(value), color);
    }
    let stability = [
        (0, "#b85450"),
        (20, "#b85450"),
        (21, "#b08d57"),
        (40, "#b08d57"),
        (41, "#4a6fa5"),
        (60, "#4a6fa5"),
        (61, "#66a182"),
        (80, "#66a182"),
        (81, "#5a8c5a"),
        (100, "#5a8c5a"),
        (101, "#666666"),
    ];
    for (value, color) in stability {
        assert_eq!(get_stability_color(value), color);
    }
}

#[test]
fn stars_count_the_fifths_of_a_difficulty() {
    assert_eq!(render_difficulty_stars(0), "⭐");
    assert_eq!(render_difficulty_stars(20), "⭐");
    assert_eq!(render_difficulty_stars(21), "⭐⭐");
    assert_eq!(render_difficulty_stars(41), "⭐⭐⭐");
    assert_eq!(render_difficulty_stars(80), "⭐⭐⭐⭐");
    assert_eq!(render_difficulty_stars(81), "⭐⭐⭐⭐⭐");
    assert_eq!(render_difficulty_stars(1000), "⭐⭐⭐⭐⭐");
}

#[test]
fn levels_have_names_descriptions_and_colours() {
    for level in JlptLevel::all_levels() {
        assert_eq!(JlptLevel::from_str(level.to_string()), Ok(level));
        assert_eq!(level_to_color(level), level.difficulty_color());
    }
    assert_eq!(JlptLevel::all_levels()[0], JlptLevel::N5);
    assert_eq!(JlptLevel::all_levels()[4], JlptLevel::N1);
    assert_eq!(JlptLevel::N5.to_string(), "N5");
    assert_eq!(JlptLevel::N1.to_string(), "N1");
    assert_eq!(JlptLevel::N5.description(), "Базовый уровень (самый простой)");
    assert_eq!(JlptLevel::N4.description(), "Начальный уровень");
    assert_eq!(JlptLevel::N3.description(), "Средний уровень");
    assert_eq!(JlptLevel::N2.description(), "Продвинутый уровень");
    assert_eq!(JlptLevel::N1.description(), "Экспертный уровень (самый сложный)");
    assert_eq!(JlptLevel::N5.difficulty_color(), "#5a8c5a");
    assert_eq!(JlptLevel::N4.difficulty_color(), "#66a182");
    assert_eq!(JlptLevel::N3.difficulty_color(), "#b08d57");
    assert_eq!(JlptLevel::N2.difficulty_color(), "#b85450");
    assert_eq!(JlptLevel::N1.difficulty_color(), "#8b2635");
    assert_eq!(JlptLevel::from_str("n5"), Err(()));
    assert_eq!(JlptLevel::from_str("N6"), Err(()));
    assert_eq!(JlptLevel::from_str(""), Err(()));
    assert_eq!(JlptLevel::from_str("N5 "), Err(()));
}

#[test]
fn choices_have_class_names() {
    assert_eq!(ModalSize::Small.to_class(), "modal-small");
    assert_eq!(ModalSize::Medium.to_class(), "modal-medium");
    assert_eq!(ModalSize::Large.to_class(), "modal-large");
    assert_eq!(ModalSize::Full.to_class(), "modal-full");
    assert_eq!(FloatingPosition::BottomRight.to_class(), "floating-bottom-right");
    assert_eq!(FloatingPosition::BottomLeft.to_class(), "floating-bottom-left");
    assert_eq!(FloatingPosition::TopRight.to_class(), "floating-top-right");
    assert_eq!(FloatingPosition::TopLeft.to_class(), "floating-top-left");
    assert_eq!(FabVariant::Primary.to_class(), "fab-primary");
    assert_eq!(FabVariant::Secondary.to_class(), "fab-secondary");
    assert_eq!(FabVariant::Success.to_class(), "fab-success");
    assert_eq!(FabVariant::Error.to_class(), "fab-error");
    assert_eq!(NextVariant::default(), NextVariant::Primary);
    assert_eq!(NextVariant::Primary.to_class(), "next-primary");
    assert_eq!(NextVariant::Secondary.to_class(), "next-secondary");
    assert_eq!(NextVariant::Success.to_class(), "next-success");
    assert_eq!(NextVariant::Warning.to_class(), "next-warning");
}

#[test]
fn state_of_an_import_is_told_in_words_and_tone() {
    assert_eq!(OperationStatus::Idle.to_pill_text(), "Готово");
    assert_eq!(OperationStatus::Loading.to_pill_text(), "Выполняется...");
    assert_eq!(OperationStatus::Success("10".to_string()).to_pill_text(), "Успешно: 10");
    assert_eq!(OperationStatus::Error("сеть".to_string()).to_pill_text(), "Ошибка: сеть");
    assert_eq!(OperationStatus::Idle.to_tone(), StateTone::Neutral);
    assert_eq!(OperationStatus::Loading.to_tone(), StateTone::Info);
    assert_eq!(OperationStatus::Success(String::new()).to_tone(), StateTone::Success);
    assert_eq!(OperationStatus::Error(String::new()).to_tone(), StateTone::Warning);
}

#[test]
fn chips_are_built_step_by_step() {
    let chip = ChipItem::new("n5", "N5", "#5a8c5a");
    assert_eq!(
        chip,
        ChipItem {
            id: "n5".to_string(),
            label: "N5".to_string(),
            count: None,
            active: false,
            color: "#5a8c5a",
            icon: None,
            class: None,
        }
    );
    let chip = chip.with_count(103).with_icon("★".to_string()).with_class("wide").active(true);
    assert_eq!(
        chip,
        ChipItem {
            id: "n5".to_string(),
            label: "N5".to_string(),
            count: Some(103),
            active: true,
            color: "#5a8c5a",
            icon: Some("★".to_string()),
            class: Some("wide"),
        }
    );
    assert_eq!(
        FilterChip::new("all", "Все", "∗").with_count(7),
        FilterChip {
            value: "all".to_string(),
            label: "Все".to_string(),
            icon: "∗",
            count: Some(7),
        }
    );
    assert_eq!(FilterChip::new("all", "Все", "∗").count, None);
}

#[test]
fn small_choices_have_their_defaults() {
    assert_eq!(CircularSize::default(), CircularSize::Medium);
    assert_eq!(InputType::default(), InputType::Text);
    assert_ne!(StudyButtonType::Lesson, StudyButtonType::Fixation);
}
