use keikaku::domain::error::KeikakuError;

fn reason() -> String {
    "why".to_string()
}

#[test]
fn messages_name_the_kind_and_the_detail() {
    let cases = vec![
        (
            KeikakuError::UserNotFoundByUsername { username: "aiko".to_string() },
            "User with username aiko not found",
        ),
        (
            KeikakuError::DuplicateCard { question: "猫".to_string() },
            "Card with question '猫' already exists",
        ),
        (KeikakuError::InvalidQuestion { reason: reason() }, "Invalid question: why"),
        (KeikakuError::InvalidAnswer { reason: reason() }, "Invalid answer: why"),
        (KeikakuError::InvalidStability { reason: reason() }, "Invalid stability: why"),
        (KeikakuError::InvalidDifficulty { reason: reason() }, "Invalid difficulty: why"),
        (KeikakuError::InvalidMemoryState { reason: reason() }, "Invalid memory state: why"),
        (KeikakuError::SrsCalculationFailed { reason: reason() }, "SRS calculation failed: why"),
        (KeikakuError::RepositoryError { reason: reason() }, "Repository error: why"),
        (KeikakuError::EmbeddingError { reason: reason() }, "Embedding error: why"),
        (KeikakuError::LlmError { reason: reason() }, "LLM error: why"),
        (KeikakuError::SettingsError { reason: reason() }, "Settings error: why"),
        (KeikakuError::FuriganaError { reason: reason() }, "Furigana error: why"),
        (KeikakuError::TranslationError { reason: reason() }, "Translation error: why"),
        (KeikakuError::KradfileError { reason: reason() }, "Kradfile error: why"),
        (KeikakuError::InvalidValues { reason: reason() }, "Invalid values: why"),
        (KeikakuError::TokenizerError { reason: reason() }, "Tokenizer error: why"),
        (KeikakuError::GrammarFormatError { reason: reason() }, "Grammar rule format error: why"),
        (KeikakuError::WellKnownSetError { reason: reason() }, "WellKnownSetError: why"),
    ];
    for (error, message) in cases {
        assert_eq!(error.message(), message);
    }
}

#[test]
fn messages_spell_identities_as_ulids() {
    let text = "01D39ZY06FGSCTVN4T2V9PKHFZ";
    let id = ulid::Ulid::from_string(text).unwrap().0;
    assert_eq!(
        KeikakuError::CardNotFound { card_id: id }.message(),
        "Card with id 01D39ZY06FGSCTVN4T2V9PKHFZ not found"
    );
    assert_eq!(
        KeikakuError::UserNotFound { user_id: id }.message(),
        "User with id 01D39ZY06FGSCTVN4T2V9PKHFZ not found"
    );
    assert_eq!(
        KeikakuError::UserNotFound { user_id: 0 }.message(),
        "User with id 00000000000000000000000000 not found"
    );
}

#[test]
fn errors_compare_by_kind_and_detail() {
    assert_eq!(
        KeikakuError::CardNotFound { card_id: 1 },
        KeikakuError::CardNotFound { card_id: 1 }
    );
    assert_ne!(
        KeikakuError::CardNotFound { card_id: 1 },
        KeikakuError::CardNotFound { card_id: 2 }
    );
    assert_ne!(
        KeikakuError::CardNotFound { card_id: 1 },
        KeikakuError::UserNotFound { user_id: 1 }
    );
    let e = KeikakuError::LlmError { reason: reason() };
    assert_eq!(e.clone(), e);
}

#[test]
fn identities_are_spelled_five_bits_to_a_digit() {
    let alphabet: Vec<char> = "0123456789ABCDEFGHJKMNPQRSTVWXYZ".chars().collect();
    let ids = [
        0u128,
        1,
        31,
        32,
        u128::MAX,
        u128::MAX - 1,
        1 << 125,
        0x0123_4567_89AB_CDEF_0123_4567_89AB_CDEF,
        ulid::Ulid::new().0,
    ];
    for id in ids {
        let spelled: String =
            (0..26).map(|k| alphabet[((id >> (5 * (25 - k))) & 0x1f) as usize]).collect();
        assert_eq!(
            KeikakuError::CardNotFound { card_id: id }.message(),
            format!("Card with id {spelled} not found")
        );
    }
}
