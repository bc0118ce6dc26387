//! Word lists that come with the application: the JLPT lists and the lessons
//! of the Migii course.

pub mod catalogue;

use vstd::prelude::*;
use std::collections::HashMap;
use vstd::string::StringExecFns;
use crate::domain::error::KeikakuError;
use crate::domain::value_objects::{JapaneseLevel, NativeLanguage};

verus! {

broadcast use vstd::std_specs::hash::group_hash_axioms;

/// What the presentation of a word list holds.
pub struct WellKnownSetContentView {
    pub title: Seq<char>,
    pub description: Seq<char>,
}

/// How a word list presents itself in one language.
#[derive(Debug, PartialEq, Eq)]
pub struct WellKnownSetContent {
    title: String,
    description: String,
}

impl View for WellKnownSetContent {
    type V = WellKnownSetContentView;

    closed spec fn view(&self) -> WellKnownSetContentView {
        WellKnownSetContentView { title: self.title@, description: self.description@ }
    }
}

impl Clone for WellKnownSetContent {
    fn clone(&self) -> (copy: WellKnownSetContent)
        ensures
            copy@ == self@,
    {
        WellKnownSetContent { title: self.title.clone(), description: self.description.clone() }
    }
}

impl WellKnownSetContent {
    pub fn new(title: String, description: String) -> (content: WellKnownSetContent)
        ensures
            content@ == (WellKnownSetContentView { title: title@, description: description@ }),
    {
        WellKnownSetContent { title, description }
    }

    pub fn title(&self) -> (title: &str)
        ensures
            title@ == self@.title,
    {
        self.title.as_str()
    }

    pub fn description(&self) -> (description: &str)
        ensures
            description@ == self@.description,
    {
        self.description.as_str()
    }
}

/// What a word list holds: its level, its words in order, and its
/// presentation in each language that has one.
pub struct WellKnownSetView {
    pub level: JapaneseLevel,
    pub words: Seq<Seq<char>>,
    pub content: Map<NativeLanguage, WellKnownSetContentView>,
}

impl WellKnownSetView {
    /// The list presents itself in `language`.
    pub open spec fn has_content(self, language: NativeLanguage) -> bool {
        self.content.contains_key(language)
    }
}

/// The texts of a list of words, in order.
pub open spec fn word_texts(words: Seq<String>) -> Seq<Seq<char>> {
    words.map_values(|w: String| w@)
}

/// The number under which the presentation in `language` is kept.
pub open spec fn language_code(language: NativeLanguage) -> u8 {
    match language {
        NativeLanguage::English => 0,
        NativeLanguage::Russian => 1,
    }
}

/// No language is given two presentations in `content`.
pub open spec fn distinct_languages(content: Seq<(NativeLanguage, WellKnownSetContent)>) -> bool {
    forall|i: int, j: int|
        0 <= i < j < content.len() ==> (#[trigger] content[i]).0 != (#[trigger] content[j]).0
}

/// The presentations of `content`, each under its language.
pub open spec fn content_by_language(content: Seq<(NativeLanguage, WellKnownSetContent)>) -> Map<
    NativeLanguage,
    WellKnownSetContentView,
> {
    Map::new(
        |language: NativeLanguage|
            exists|i: int| 0 <= i < content.len() && (#[trigger] content[i]).0 == language,
        |language: NativeLanguage|
            {
                let at = choose|i: int|
                    0 <= i < content.len() && (#[trigger] content[i]).0 == language;
                content[at].1@
            },
    )
}

/// What a map of presentations kept by number holds, by language.
pub open spec fn presentations(kept: Map<u8, WellKnownSetContent>) -> Map<
    NativeLanguage,
    WellKnownSetContentView,
> {
    Map::new(
        |language: NativeLanguage| kept.contains_key(language_code(language)),
        |language: NativeLanguage| kept[language_code(language)]@,
    )
}

/// The number under which the presentation in `language` is kept.
fn code_of(language: NativeLanguage) -> (code: u8)
    ensures
        code == language_code(language),
{
    match language {
        NativeLanguage::English => 0,
        NativeLanguage::Russian => 1,
    }
}

/// A word list of one level, with its presentation in several languages.
#[derive(Debug, PartialEq, Eq)]
pub struct WellKnownSet {
    level: JapaneseLevel,
    words: Vec<String>,
    content: HashMap<u8, WellKnownSetContent>,
}

impl View for WellKnownSet {
    type V = WellKnownSetView;

    closed spec fn view(&self) -> WellKnownSetView {
        WellKnownSetView {
            level: self.level,
            words: word_texts(self.words@),
            content: presentations(self.content@),
        }
    }
}

impl Clone for WellKnownSet {
    fn clone(&self) -> (copy: WellKnownSet)
        ensures
            copy@ == self@,
    {
        let mut words: Vec<String> = Vec::new();
        let mut i: usize = 0;
        while i < self.words.len()
            invariant
                i <= self.words.len(),
                words.len() == i,
                forall|k: int| 0 <= k < i ==> (#[trigger] words[k])@ == self.words[k]@,
            decreases self.words.len() - i,
        {
            words.push(self.words[i].clone());
            i = i + 1;
        }
        assert(word_texts(words@) =~= word_texts(self.words@));
        WellKnownSet { level: self.level, words, content: self.content.clone() }
    }
}

impl WellKnownSet {
    /// Builds a word list. Fails with `WellKnownSetError` when a language is
    /// given two presentations.
    pub fn new(
        level: JapaneseLevel,
        words: Vec<String>,
        content: Vec<(NativeLanguage, WellKnownSetContent)>,
    ) -> (made: Result<WellKnownSet, KeikakuError>)
        ensures
            distinct_languages(content@) ==> (made matches Ok(set) && set@ == (WellKnownSetView {
                level,
                words: word_texts(words@),
                content: content_by_language(content@),
            })),
            !distinct_languages(content@) ==> (made matches Err(
                KeikakuError::WellKnownSetError { reason },
            ) && reason@ == "a language has two presentations"@),
    {
        let mut kept: HashMap<u8, WellKnownSetContent> = HashMap::new();
        let mut j: usize = 0;
        while j < content.len()
            invariant
                j <= content.len(),
                distinct_languages(content@.take(j as int)),
                presentations(kept@) == content_by_language(content@.take(j as int)),
            decreases content.len() - j,
        {
            let code = code_of(content[j].0);
            let ghost before = content@.take(j as int);
            let ghost after = content@.take(j + 1);
            proof {
                assert forall|i: int| 0 <= i < j implies #[trigger] after[i] == before[i] by {}
                assert(after[j as int] == content[j as int]);
            }
            if kept.contains_key(&code) {
                proof {
                    let language = content[j as int].0;
                    assert(presentations(kept@).contains_key(language));
                    let i = choose|i: int|
                        0 <= i < before.len() && (#[trigger] before[i]).0 == language;
                    assert(content[i] == before[i]);
                    assert(content[i].0 == content[j as int].0);
                }
                return Err(
                    KeikakuError::WellKnownSetError {
                        reason: String::from_str("a language has two presentations"),
                    },
                );
            }
            let ghost old_kept = kept@;
            kept.insert(code, content[j].1.clone());
            proof {
                let language = content[j as int].0;
                assert forall|i: int, l: int| 0 <= i < l < after.len() implies (
                #[trigger] after[i]).0 != (#[trigger] after[l]).0 by {
                    if l == j {
                        if after[i].0 == language {
                            assert(before[i].0 == language);
                            assert(presentations(old_kept).contains_key(language));
                        }
                    } else {
                        assert(before[i].0 != before[l].0);
                    }
                }
                assert forall|other: NativeLanguage|
                    presentations(kept@).contains_key(other) <==> content_by_language(
                        after,
                    ).contains_key(other) by {
                    if other == language {
                        assert(after[j as int].0 == other);
                    } else {
                        assert(language_code(other) != code);
                        if presentations(old_kept).contains_key(other) {
                            let i = choose|i: int|
                                0 <= i < before.len() && (#[trigger] before[i]).0 == other;
                            assert(after[i].0 == other);
                        }
                        if content_by_language(after).contains_key(other) {
                            let i = choose|i: int|
                                0 <= i < after.len() && (#[trigger] after[i]).0 == other;
                            assert(before[i].0 == other);
                        }
                    }
                }
                assert forall|other: NativeLanguage|
                    presentations(kept@).contains_key(other) implies presentations(kept@)[other]
                    == content_by_language(after)[other] by {
                    assert(content_by_language(after).contains_key(other));
                    let at = choose|i: int|
                        0 <= i < after.len() && (#[trigger] after[i]).0 == other;
                    if other == language {
                        if at < j {
                            assert(after[at].0 != after[j as int].0);
                        }
                        assert(at == j);
                    } else {
                        assert(language_code(other) != code);
                        assert(old_kept.contains_key(language_code(other)));
                        assert(presentations(old_kept).contains_key(other));
                        assert(content_by_language(before).contains_key(other));
                        let was = choose|i: int|
                            0 <= i < before.len() && (#[trigger] before[i]).0 == other;
                        assert(after[at].0 != after[j as int].0);
                        assert(at < j);
                        assert(before[at] == after[at]);
                        if was < at {
                            assert(before[was].0 != before[at].0);
                        } else if at < was {
                            assert(before[at].0 != before[was].0);
                        }
                        assert(presentations(old_kept)[other] == content_by_language(
                            before,
                        )[other]);
                    }
                }
                assert(presentations(kept@) =~= content_by_language(after));
            }
            j = j + 1;
        }
        proof {
            assert(content@.take(content.len() as int) == content@);
        }
        Ok(WellKnownSet { level, words, content: kept })
    }

    /// The words of the list, in order.
    pub fn words(&self) -> (words: &[String])
        ensures
            word_texts(words@) == self@.words,
    {
        self.words.as_slice()
    }

    /// The presentation of the list in `lang`, which the list must have.
    pub fn content(&self, lang: &NativeLanguage) -> (content: &WellKnownSetContent)
        requires
            self@.has_content(*lang),
        ensures
            content@ == self@.content[*lang],
    {
        let found = self.content.get(&code_of(*lang));
        found.unwrap()
    }

    /// The presentation of the list in `lang`, if it has one.
    pub fn find_content(&self, lang: &NativeLanguage) -> (found: Option<&WellKnownSetContent>)
        ensures
            match found {
                Some(content) => self@.has_content(*lang) && content@ == self@.content[*lang],
                None => !self@.has_content(*lang),
            },
    {
        self.content.get(&code_of(*lang))
    }

    pub fn level(&self) -> (level: &JapaneseLevel)
        ensures
            *level == self@.level,
    {
        &self.level
    }
}

} // verus!
