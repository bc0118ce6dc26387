use keikaku::domain::japanese::{reading_differs, same_reading, JapaneseChar, JapaneseText};

#[test]
fn characters_are_told_apart_by_script() {
    assert!('あ'.is_hiragana());
    assert!(!'あ'.is_katakana());
    assert!(!'あ'.is_kanji());
    assert!('ア'.is_katakana());
    assert!(!'ア'.is_hiragana());
    assert!('日'.is_kanji());
    assert!(!'日'.is_hiragana());
    assert!('あ'.is_japanese());
    assert!('ア'.is_japanese());
    assert!('日'.is_japanese());
    assert!(!'a'.is_japanese());
    assert!(!'1'.is_japanese());
    assert!(!' '.is_japanese());
}

#[test]
fn blocks_end_where_they_should() {
    assert!(!'\u{303F}'.is_hiragana());
    assert!('\u{3040}'.is_hiragana());
    assert!('\u{309F}'.is_hiragana());
    assert!(!'\u{30A0}'.is_hiragana());
    assert!('\u{30A0}'.is_katakana());
    assert!('\u{30FF}'.is_katakana());
    assert!(!'\u{3100}'.is_katakana());
    assert!(!'\u{33FF}'.is_kanji());
    assert!('\u{3400}'.is_kanji());
    assert!('\u{4DBF}'.is_kanji());
    assert!(!'\u{4DC0}'.is_kanji());
    assert!(!'\u{4DFF}'.is_kanji());
    assert!('\u{4E00}'.is_kanji());
    assert!('\u{9FFF}'.is_kanji());
    assert!(!'\u{A000}'.is_kanji());
    assert!(!'\u{1FFFF}'.is_kanji());
    assert!('\u{20000}'.is_kanji());
    assert!('\u{2A6DF}'.is_kanji());
    assert!(!'\u{2A6E0}'.is_kanji());
}

#[test]
fn texts_are_judged_character_by_character() {
    assert!("ひらがな".is_japanese());
    assert!("日本語のテキスト".is_japanese());
    assert!(!"日本語 text".is_japanese());
    assert!(!"日本語。".is_japanese());
    assert!("".is_japanese());
    assert!("learn 日本語".contains_japanese());
    assert!(!"plain text".contains_japanese());
    assert!(!"".contains_japanese());
    assert!("食べる".contains_kanji());
    assert!(!"たべる".contains_kanji());
    assert!(!"".contains_kanji());
    assert!("abc𠀀".contains_kanji());
}

#[test]
fn readings_are_compared_as_texts() {
    assert!(reading_differs("食べる", "食[た]べる"));
    assert!(!reading_differs("たべる", "たべる"));
    assert!(same_reading("はし", "はし"));
    assert!(!same_reading("はし", "はじ"));
    assert!(!same_reading("はし", "はしる"));
    assert!(same_reading("", ""));
}
