//! Look-ups in the kanji reference, and the step every use case on a user
//! starts with.

use vstd::prelude::*;
use vstd::string::StringExecFns;
use crate::domain::dictionary::{
    borrowed_kanji_views,
    first_entry,
    is_unknown_kanji,
    kanji_views,
    knows,
    of_level,
    KanjiDictionary,
    KanjiInfo,
};
use crate::domain::error::KeikakuError;
use crate::domain::memory::{MemoryState, Rating, ReviewLog};
use crate::domain::user::User;
use crate::domain::value_objects::JapaneseLevel;

verus! {

/// Looks one kanji up in the reference.
pub struct KanjiInfoUseCase<'a> {
    dictionary: &'a KanjiDictionary,
}

impl<'a> KanjiInfoUseCase<'a> {
    pub closed spec fn dictionary_spec(&self) -> &'a KanjiDictionary {
        self.dictionary
    }

    pub fn new(dictionary: &'a KanjiDictionary) -> (use_case: Self)
        ensures
            use_case.dictionary_spec() == dictionary,
    {
        Self { dictionary }
    }

    /// What the reference knows of `kanji`: a copy of its first entry.
    ///
    /// Fails, with the error of the reference itself, when the reference has
    /// no entry about it.
    pub fn execute(&self, kanji: &str) -> (found: Result<KanjiInfo, KeikakuError>)
        ensures
            knows(self.dictionary_spec()@, kanji@) ==> (found matches Ok(info) && info@
                == self.dictionary_spec()@[first_entry(self.dictionary_spec()@, kanji@)]),
            !knows(self.dictionary_spec()@, kanji@) ==> (found matches Err(error)
                && is_unknown_kanji(error, kanji@)),
    {
        match self.dictionary.get_kanji_info(kanji) {
            Ok(info) => Ok(info.clone()),
            Err(error) => Err(error),
        }
    }
}

/// Lists the kanji of one level.
pub struct KanjiListUseCase<'a> {
    dictionary: &'a KanjiDictionary,
}

impl<'a> KanjiListUseCase<'a> {
    pub closed spec fn dictionary_spec(&self) -> &'a KanjiDictionary {
        self.dictionary
    }

    pub fn new(dictionary: &'a KanjiDictionary) -> (use_case: Self)
        ensures
            use_case.dictionary_spec() == dictionary,
    {
        Self { dictionary }
    }

    /// The kanji of the level `level`, in the order of the reference.
    pub fn execute(&self, level: &JapaneseLevel) -> (list: Result<Vec<KanjiInfo>, KeikakuError>)
        ensures
            list matches Ok(entries) && kanji_views(entries@) == of_level(
                self.dictionary_spec()@,
                *level,
            ),
    {
        let borrowed = self.dictionary.get_kanji_list(level);
        let mut entries: Vec<KanjiInfo> = Vec::new();
        let mut i: usize = 0;
        while i < borrowed.len()
            invariant
                i <= borrowed.len(),
                entries.len() == i,
                forall|k: int| 0 <= k < i ==> (#[trigger] entries[k])@ == borrowed[k]@,
            decreases borrowed.len() - i,
        {
            entries.push(borrowed[i].clone());
            i = i + 1;
        }
        assert(kanji_views(entries@) =~= borrowed_kanji_views(borrowed@));
        Ok(entries)
    }
}

/// The user a repository has found, or `UserNotFound` when it has found
/// none under the identity `user_id`.
pub fn require_user(found: Option<User>, user_id: u128) -> (user: Result<User, KeikakuError>)
    ensures
        match found {
            Some(stored) => user matches Ok(u) && u == stored,
            None => user == Err::<User, KeikakuError>(KeikakuError::UserNotFound { user_id }),
        },
{
    match found {
        Some(stored) => Ok(stored),
        None => Err(KeikakuError::UserNotFound { user_id }),
    }
}

/// Records a rating once the scheduler has answered.
///
/// `scheduled` is what the scheduler returned for the card and the rating:
/// the next state and the recommended interval, or the reason why it could
/// compute none. In the first case the review is recorded as of the instant
/// `now`; in the second the scheduler's error is handed on and the user stays
/// exactly as it was. An unknown card is `CardNotFound`, and changes nothing
/// either.
pub fn record_scheduled_rating(
    user: &mut User,
    now: i64,
    card_id: u128,
    rating: Rating,
    scheduled: Result<(MemoryState, i64), KeikakuError>,
) -> (recorded: Result<(), KeikakuError>)
    requires
        old(user)@.wf(),
    ensures
        final(user)@.wf(),
        match scheduled {
            Err(error) => recorded == Err::<(), KeikakuError>(error) && final(user)@ == old(user)@,
            Ok((memory_state, interval)) => {
                &&& final(user)@ == old(user)@.with_knowledge_set(
                    old(user)@.knowledge_set.after_rating(
                        card_id,
                        ReviewLog::at(now, rating, interval, memory_state),
                    ),
                )
                &&& old(user)@.knowledge_set.has_card(card_id) ==> recorded is Ok
                &&& !old(user)@.knowledge_set.has_card(card_id) ==> recorded == Err::<
                    (),
                    KeikakuError,
                >(KeikakuError::CardNotFound { card_id }) && final(user)@ == old(user)@
            },
        },
{
    match scheduled {
        Err(error) => Err(error),
        Ok((memory_state, interval)) => user.rate_card_at(
            now,
            card_id,
            rating,
            interval,
            memory_state,
        ),
    }
}

/// The words with which the shell greets `name`.
pub open spec fn greeting(name: Seq<char>) -> Seq<char> {
    "Hello, "@ + name + "! You've been greeted from Rust!"@
}

/// Greets `name`.
pub fn greet(name: &str) -> (text: String)
    ensures
        text@ == greeting(name@),
{
    let mut text = String::from_str("Hello, ");
    text.append(name);
    text.append("! You've been greeted from Rust!");
    text
}

} // verus!
