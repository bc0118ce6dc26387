//! The bookkeeping of an import: how many cards were created and which words
//! were passed over.

use vstd::prelude::*;
use crate::domain::error::KeikakuError;
use crate::domain::value_objects::NativeLanguage;
use crate::domain::well_known_set::catalogue::WellKnownSets;
use crate::domain::well_known_set::WellKnownSet;

verus! {

/// The outcome of importing a list of recommended words.
#[derive(Debug, PartialEq, Eq)]
pub struct ImportJlptRecommendedResult {
    pub total_created_count: usize,
    pub skipped_words: Vec<String>,
}

impl ImportJlptRecommendedResult {
    /// The outcome of an import that has not started.
    pub fn new() -> (result: ImportJlptRecommendedResult)
        ensures
            result.total_created_count == 0,
            result.skipped_words@ == Seq::<String>::empty(),
    {
        ImportJlptRecommendedResult { total_created_count: 0, skipped_words: Vec::new() }
    }

    /// Takes note of what became of one word: a card that was created is
    /// counted; a word whose card could not be created, because the set had
    /// it already or for any other reason, joins the words passed over.
    pub fn record(&mut self, word: String, created: bool)
        requires
            old(self).total_created_count < usize::MAX,
        ensures
            created ==> final(self).total_created_count == old(self).total_created_count + 1
                && final(self).skipped_words@ == old(self).skipped_words@,
            !created ==> final(self).total_created_count == old(self).total_created_count
                && final(self).skipped_words@ == old(self).skipped_words@.push(word),
    {
        if created {
            self.total_created_count = self.total_created_count + 1;
        } else {
            self.skipped_words.push(word);
        }
    }

    /// Takes note of the result of one attempt to create a card for `word`.
    pub fn record_attempt<T>(&mut self, word: String, attempt: &Result<T, KeikakuError>)
        requires
            old(self).total_created_count < usize::MAX,
        ensures
            attempt is Ok ==> final(self).total_created_count == old(self).total_created_count
                + 1 && final(self).skipped_words@ == old(self).skipped_words@,
            attempt is Err ==> final(self).total_created_count == old(self).total_created_count
                && final(self).skipped_words@ == old(self).skipped_words@.push(word),
    {
        self.record(word, attempt.is_ok());
    }
}

/// A word list as it is offered to a learner: its name, and its title and
/// description in the learner's language.
#[derive(Debug, PartialEq, Eq)]
pub struct WellKnownSetInfo {
    pub set: WellKnownSets,
    pub title: String,
    pub description: String,
}

impl WellKnownSetInfo {
    /// Presents the list `loaded`, whose name is `set`, in the language
    /// `native_language`, which the list must have.
    pub fn describe(set: WellKnownSets, loaded: &WellKnownSet, native_language: &NativeLanguage)
        -> (info: WellKnownSetInfo)
        requires
            loaded@.has_content(*native_language),
        ensures
            info.set == set,
            info.title@ == loaded@.content[*native_language].title,
            info.description@ == loaded@.content[*native_language].description,
    {
        let content = loaded.content(native_language);
        WellKnownSetInfo {
            set,
            title: content.title().to_owned(),
            description: content.description().to_owned(),
        }
    }
}

} // verus!
