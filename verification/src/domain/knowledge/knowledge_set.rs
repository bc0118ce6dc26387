//! The collection of a learner's study cards.

use vstd::prelude::*;
use std::collections::HashMap;
use crate::domain::clock::now_millis;
use crate::domain::error::KeikakuError;
use crate::domain::identity::fresh_id;
use crate::domain::knowledge::card::{Card, CardView, StudyCard, StudyCardView};
use crate::domain::knowledge::daily_history::{DailyHistoryItem, DailyHistoryView};
use crate::domain::knowledge::laws::law_fixation_lists_the_due_and_the_new;
use crate::domain::knowledge::statistics::{
    average_or_zero,
    statistics_of,
    statistics_spec,
    KnowledgeStatistics,
};
use crate::domain::memory::{MemoryState, Rating, ReviewLog};
use vstd::string::StringExecFns;

verus! {

broadcast use vstd::std_specs::hash::group_hash_axioms;

/// What a knowledge set holds: its study cards in the order in which they
/// were created, and the rollup of the current day.
pub struct KnowledgeSetView {
    pub cards: Seq<StudyCardView>,
    pub daily_history: DailyHistoryView,
}

impl KnowledgeSetView {
    /// Some card of the set has the identity `card_id`.
    pub open spec fn has_card(self, card_id: u128) -> bool {
        exists|i: int| 0 <= i < self.cards.len() && #[trigger] self.cards[i].card_id == card_id
    }

    /// Some card of the set asks `question`.
    pub open spec fn has_question(self, question: Seq<char>) -> bool {
        exists|i: int|
            0 <= i < self.cards.len() && #[trigger] self.cards[i].card.question() == question
    }

    /// Where the card with the identity `card_id` stands, if the set has it.
    pub open spec fn position(self, card_id: u128) -> int {
        choose|i: int| 0 <= i < self.cards.len() && #[trigger] self.cards[i].card_id == card_id
    }

    /// No two cards share an identity.
    pub open spec fn distinct_ids(self) -> bool {
        forall|i: int, j: int|
            0 <= i < j < self.cards.len() ==> #[trigger] self.cards[i].card_id
                != #[trigger] self.cards[j].card_id
    }

    /// No two cards ask the same question.
    pub open spec fn distinct_questions(self) -> bool {
        forall|i: int, j: int|
            0 <= i < j < self.cards.len() ==> #[trigger] self.cards[i].card.question()
                != #[trigger] self.cards[j].card.question()
    }

    /// The state of every card is the one its last review led to.
    pub open spec fn consistent_histories(self) -> bool {
        forall|i: int| 0 <= i < self.cards.len() ==> (#[trigger] self.cards[i]).memory.consistent()
    }

    /// What holds of every knowledge set.
    pub open spec fn wf(self) -> bool {
        &&& self.distinct_ids()
        &&& self.distinct_questions()
        &&& self.consistent_histories()
    }

    /// The set with `card` added as its newest card.
    pub open spec fn with_card(self, card: StudyCardView) -> KnowledgeSetView {
        KnowledgeSetView { cards: self.cards.push(card), ..self }
    }

    /// The set without the card at `position`.
    pub open spec fn without(self, position: int) -> KnowledgeSetView {
        KnowledgeSetView { cards: self.cards.remove(position), ..self }
    }

    /// The set after an attempt to add `card` under the identity `card_id`:
    /// the card joins the set unless its question or the identity is taken,
    /// in which case nothing changes.
    pub open spec fn after_create(self, card: CardView, card_id: u128) -> KnowledgeSetView {
        if self.has_question(card.question()) || self.has_card(card_id) {
            self
        } else {
            self.with_card(StudyCardView::fresh(card_id, card))
        }
    }

    /// The set after an attempt to delete the card with the identity
    /// `card_id`: the card leaves the set if it is there.
    pub open spec fn after_delete(self, card_id: u128) -> KnowledgeSetView {
        if self.has_card(card_id) {
            self.without(self.position(card_id))
        } else {
            self
        }
    }

    /// The set after an attempt to record the review `log` of the card with
    /// the identity `card_id`: the review joins the history of the card if
    /// the card is there, and the state it led to becomes the current one.
    pub open spec fn after_rating(self, card_id: u128, log: ReviewLog) -> KnowledgeSetView {
        if self.has_card(card_id) {
            self.rated(self.position(card_id), log.resulting_state, log)
        } else {
            self
        }
    }

    /// The set after `lesson_duration` more milliseconds of study.
    pub open spec fn after_lesson(self, lesson_duration: i64) -> KnowledgeSetView {
        KnowledgeSetView { daily_history: self.daily_history.lengthened(lesson_duration), ..self }
    }

    /// The set after the card at `position` was reviewed.
    pub open spec fn rated(self, position: int, state: MemoryState, log: ReviewLog)
        -> KnowledgeSetView {
        KnowledgeSetView {
            cards: self.cards.update(position, self.cards[position].reviewed(state, log)),
            ..self
        }
    }
}

/// The views of a list of study cards, in order.
pub open spec fn study_card_views(cards: Seq<StudyCard>) -> Seq<StudyCardView> {
    cards.map_values(|c: StudyCard| c@)
}

/// Whether `positions` leads from the identity of every card of `cards` to
/// the place where the card stands, and from nothing else to anywhere.
pub open spec fn is_index_of(positions: Map<u128, usize>, cards: Seq<StudyCardView>) -> bool {
    &&& forall|i: int|
        0 <= i < cards.len() ==> positions.contains_key(#[trigger] cards[i].card_id)
            && positions[cards[i].card_id] == i
    &&& forall|card_id: u128| #[trigger]
        positions.contains_key(card_id) ==> positions[card_id] < cards.len()
            && cards[positions[card_id] as int].card_id == card_id
}

/// A learner's study cards and the statistics of their study.
///
/// The cards stand in the order in which they were created; a map from
/// identity to place finds a card by its identity.
#[derive(Debug, PartialEq, Eq)]
pub struct KnowledgeSet {
    study_cards: Vec<StudyCard>,
    positions: HashMap<u128, usize>,
    daily_history: DailyHistoryItem,
}

/// The map from the identity of each card of `cards` to its place.
fn index_of(cards: &Vec<StudyCard>) -> (positions: HashMap<u128, usize>)
    requires
        forall|i: int, j: int|
            0 <= i < j < cards.len() ==> (#[trigger] cards[i])@.card_id != (
            #[trigger] cards[j])@.card_id,
    ensures
        is_index_of(positions@, study_card_views(cards@)),
{
    let ghost views = study_card_views(cards@);
    let mut positions: HashMap<u128, usize> = HashMap::new();
    let mut k: usize = 0;
    while k < cards.len()
        invariant
            k <= cards.len(),
            views == study_card_views(cards@),
            forall|i: int, j: int|
                0 <= i < j < cards.len() ==> (#[trigger] cards[i])@.card_id != (
                #[trigger] cards[j])@.card_id,
            forall|i: int|
                0 <= i < k ==> positions@.contains_key(#[trigger] views[i].card_id)
                    && positions@[views[i].card_id] == i,
            forall|card_id: u128| #[trigger]
                positions@.contains_key(card_id) ==> positions@[card_id] < k
                    && views[positions@[card_id] as int].card_id == card_id,
        decreases cards.len() - k,
    {
        let card_id = cards[k].card_id();
        proof {
            assert(views[k as int] == cards[k as int]@);
            if positions@.contains_key(card_id) {
                let j = positions@[card_id] as int;
                assert(views[j] == cards[j]@);
                assert(cards[j]@.card_id != cards[k as int]@.card_id);
            }
            assert forall|i: int| 0 <= i < k implies views[i].card_id != card_id by {
                assert(views[i] == cards[i]@);
                assert(cards[i]@.card_id != cards[k as int]@.card_id);
            }
        }
        positions.insert(card_id, k);
        k = k + 1;
    }
    positions
}

impl View for KnowledgeSet {
    type V = KnowledgeSetView;

    closed spec fn view(&self) -> KnowledgeSetView {
        KnowledgeSetView {
            cards: study_card_views(self.study_cards@),
            daily_history: self.daily_history@,
        }
    }
}

impl Clone for KnowledgeSet {
    fn clone(&self) -> (copy: KnowledgeSet)
        ensures
            copy@ == self@,
    {
        let mut study_cards: Vec<StudyCard> = Vec::new();
        let mut i: usize = 0;
        while i < self.study_cards.len()
            invariant
                i <= self.study_cards.len(),
                study_cards.len() == i,
                forall|k: int| 0 <= k < i ==> (#[trigger] study_cards[k])@ == self.study_cards[k]@,
            decreases self.study_cards.len() - i,
        {
            study_cards.push(self.study_cards[i].clone());
            i = i + 1;
        }
        proof {
            use_type_invariant(self);
            assert(study_card_views(study_cards@) =~= study_card_views(self.study_cards@));
        }
        KnowledgeSet {
            study_cards,
            positions: self.positions.clone(),
            daily_history: self.daily_history,
        }
    }
}

impl KnowledgeSet {
    /// The invariant of the type: the map of places agrees with the cards.
    #[verifier::type_invariant]
    pub closed spec fn index_agrees(&self) -> bool {
        is_index_of(self.positions@, study_card_views(self.study_cards@))
    }

    /// An empty set whose daily rollup is stamped with the present time.
    pub fn new() -> (set: KnowledgeSet)
        ensures
            set@.cards == Seq::<StudyCardView>::empty(),
            set@.daily_history == DailyHistoryView::blank(set@.daily_history.timestamp),
            set@.wf(),
    {
        KnowledgeSet::new_at(now_millis())
    }

    /// An empty set whose daily rollup is stamped with `timestamp`.
    pub fn new_at(timestamp: i64) -> (set: KnowledgeSet)
        ensures
            set@.cards == Seq::<StudyCardView>::empty(),
            set@.daily_history == DailyHistoryView::blank(timestamp),
            set@.wf(),
    {
        let set = KnowledgeSet {
            study_cards: Vec::new(),
            positions: HashMap::new(),
            daily_history: DailyHistoryItem::new_at(timestamp),
        };
        assert(set@.cards =~= Seq::<StudyCardView>::empty());
        set
    }

    /// All study cards, oldest first.
    pub fn study_cards(&self) -> (cards: &Vec<StudyCard>)
        ensures
            study_card_views(cards@) == self@.cards,
    {
        &self.study_cards
    }

    /// The number of study cards.
    pub fn len(&self) -> (len: usize)
        ensures
            len == self@.cards.len(),
    {
        self.study_cards.len()
    }

    /// The rollup of the current day.
    pub fn daily_history(&self) -> (item: &DailyHistoryItem)
        ensures
            item@ == self@.daily_history,
    {
        &self.daily_history
    }

    /// Where the card with the identity `card_id` stands.
    pub fn position_of(&self, card_id: u128) -> (found: Option<usize>)
        ensures
            match found {
                Some(i) => i < self@.cards.len() && self@.cards[i as int].card_id == card_id,
                None => !self@.has_card(card_id),
            },
            self@.distinct_ids() && self@.has_card(card_id) ==> found == Some(
                self@.position(card_id) as usize,
            ),
    {
        proof {
            use_type_invariant(self);
        }
        match self.positions.get(&card_id) {
            Some(place) => {
                let i = *place;
                proof {
                    if self@.distinct_ids() && self@.has_card(card_id) {
                        let p = self@.position(card_id);
                        if p < i {
                            assert(self@.cards[p].card_id != self@.cards[i as int].card_id);
                        } else if i < p {
                            assert(self@.cards[i as int].card_id != self@.cards[p].card_id);
                        }
                    }
                }
                Some(i)
            },
            None => None,
        }
    }

    /// The card with the identity `card_id`, if the set has it.
    pub fn get_card(&self, card_id: u128) -> (found: Option<&StudyCard>)
        ensures
            match found {
                Some(card) => exists|i: int|
                    0 <= i < self@.cards.len() && self@.cards[i] == card@ && card@.card_id
                        == card_id,
                None => !self@.has_card(card_id),
            },
    {
        match self.position_of(card_id) {
            Some(i) => {
                assert(self@.cards[i as int] == self.study_cards[i as int]@);
                Some(&self.study_cards[i])
            },
            None => None,
        }
    }

    /// The current state of the card with the identity `card_id`: what a
    /// scheduler starts from. `None` inside `Ok` is a card never reviewed.
    ///
    /// Fails with `CardNotFound` when the set has no such card.
    pub fn current_state_of(&self, card_id: u128) -> (state: Result<
        Option<MemoryState>,
        KeikakuError,
    >)
        ensures
            !self@.has_card(card_id) ==> state == Err::<Option<MemoryState>, KeikakuError>(
                KeikakuError::CardNotFound { card_id },
            ),
            self@.has_card(card_id) && self@.distinct_ids() ==> state == Ok::<
                Option<MemoryState>,
                KeikakuError,
            >(self@.cards[self@.position(card_id)].memory.current),
            self@.has_card(card_id) ==> state is Ok,
    {
        match self.position_of(card_id) {
            None => Err(KeikakuError::CardNotFound { card_id }),
            Some(i) => {
                assert(self@.cards[i as int] == self.study_cards[i as int]@);
                Ok(self.study_cards[i].memory().current_state())
            },
        }
    }

    /// Whether some card of the set asks the question that `card` asks.
    pub fn contains_question(&self, card: &Card) -> (found: bool)
        ensures
            found == self@.has_question(card@.question()),
    {
        let mut i: usize = 0;
        while i < self.study_cards.len()
            invariant
                i <= self.study_cards.len(),
                forall|k: int| 0 <= k < i ==> self@.cards[k].card.question() != card@.question(),
            decreases self.study_cards.len() - i,
        {
            assert(self@.cards[i as int] == self.study_cards[i as int]@);
            if self.study_cards[i].card().question().same_as(card.question()) {
                return true;
            }
            i = i + 1;
        }
        false
    }
}

impl KnowledgeSet {
    /// Takes the cards and the map of places out of the set, to be changed
    /// together and put back; the set is meanwhile left without cards.
    fn take_cards(&mut self) -> (taken: (Vec<StudyCard>, HashMap<u128, usize>))
        ensures
            taken.0 == old(self).study_cards,
            taken.1 == old(self).positions,
            is_index_of(taken.1@, study_card_views(taken.0@)),
            final(self).daily_history == old(self).daily_history,
    {
        proof {
            use_type_invariant(&*self);
        }
        let mut emptied = KnowledgeSet {
            study_cards: Vec::new(),
            positions: HashMap::new(),
            daily_history: self.daily_history,
        };
        std::mem::swap(self, &mut emptied);
        let KnowledgeSet { study_cards, positions, daily_history: _ } = emptied;
        (study_cards, positions)
    }

    /// Adds `card` under the identity `card_id`.
    ///
    /// Fails with `DuplicateCard` when a card of the set already asks the same
    /// question, and with `InvalidValues` when the question is new but the
    /// identity is taken. A failed call leaves the set as it was.
    pub fn create_card_with_id(&mut self, card: Card, card_id: u128) -> (created: Result<
        StudyCard,
        KeikakuError,
    >)
        requires
            old(self)@.wf(),
        ensures
            final(self)@.wf(),
            final(self)@ == old(self)@.after_create(card@, card_id),
            old(self)@.has_question(card@.question()) ==> final(self)@ == old(self)@ && (
            created matches Err(KeikakuError::DuplicateCard { question }) && question@
                == card@.question()),
            !old(self)@.has_question(card@.question()) && old(self)@.has_card(card_id) ==> {
                &&& final(self)@ == old(self)@
                &&& created matches Err(KeikakuError::InvalidValues { reason })
                &&& reason@ == "card identity is already in use"@
            },
            !old(self)@.has_question(card@.question()) && !old(self)@.has_card(card_id) ==> (
            created matches Ok(study_card) && study_card@ == StudyCardView::fresh(card_id, card@)
                && final(self)@ == old(self)@.with_card(study_card@)),
    {
        if self.contains_question(&card) {
            let question = String::from_str(card.question().text());
            return Err(KeikakuError::DuplicateCard { question });
        }
        if self.position_of(card_id).is_some() {
            return Err(
                KeikakuError::InvalidValues {
                    reason: String::from_str("card identity is already in use"),
                },
            );
        }
        let study_card = StudyCard::with_id(card_id, card);
        let copy = study_card.clone();
        proof {
            assert(study_card@ == StudyCardView::fresh(card_id, card@));
            let before = study_card_views(self.study_cards@);
            let after = study_card_views(self.study_cards@.push(study_card));
            assert(after =~= before.push(study_card@));
            assert forall|i: int, j: int| 0 <= i < j < after.len() implies after[i].card_id
                != after[j].card_id && after[i].card.question() != after[j].card.question() by {
                assert(before[i] == after[i]);
                if j < before.len() {
                    assert(before[j] == after[j]);
                }
            }
            assert forall|i: int| 0 <= i < after.len() implies (
            #[trigger] after[i]).memory.consistent() by {
                if i < before.len() {
                    assert(before[i] == after[i]);
                }
            }
        }
        let place = self.study_cards.len();
        let (mut study_cards, mut positions) = self.take_cards();
        study_cards.push(study_card);
        positions.insert(card_id, place);
        *self = KnowledgeSet { study_cards, positions, daily_history: self.daily_history };
        Ok(copy)
    }

    /// Adds `card` under a newly drawn identity and returns the study card
    /// that now stands in the set.
    ///
    /// Fails with `DuplicateCard` when a card of the set already asks the same
    /// question; the set is then unchanged. Should the identity that was
    /// drawn be taken, the call fails with `InvalidValues` and changes
    /// nothing; in a set without cards no identity is taken, so the first
    /// card always joins.
    pub fn create_card(&mut self, card: Card) -> (created: Result<StudyCard, KeikakuError>)
        requires
            old(self)@.wf(),
        ensures
            final(self)@.wf(),
            old(self)@.cards.len() == 0 ==> created is Ok,
            old(self)@.has_question(card@.question()) ==> final(self)@ == old(self)@ && (
            created matches Err(KeikakuError::DuplicateCard { question }) && question@
                == card@.question()),
            !old(self)@.has_question(card@.question()) ==> match created {
                Ok(study_card) => {
                    &&& !old(self)@.has_card(study_card@.card_id)
                    &&& study_card@ == StudyCardView::fresh(study_card@.card_id, card@)
                    &&& final(self)@ == old(self)@.with_card(study_card@)
                },
                Err(error) => {
                    &&& error matches KeikakuError::InvalidValues { reason }
                    &&& reason@ == "card identity is already in use"@
                    &&& final(self)@ == old(self)@
                },
            },
    {
        if self.contains_question(&card) {
            let question = String::from_str(card.question().text());
            return Err(KeikakuError::DuplicateCard { question });
        }
        self.create_card_with_id(card, fresh_id())
    }

    /// Removes the card with the identity `card_id`.
    ///
    /// Fails with `CardNotFound` when the set has no such card, and then
    /// changes nothing.
    pub fn delete_card(&mut self, card_id: u128) -> (deleted: Result<(), KeikakuError>)
        requires
            old(self)@.wf(),
        ensures
            final(self)@.wf(),
            final(self)@ == old(self)@.after_delete(card_id),
            old(self)@.has_card(card_id) ==> deleted is Ok,
            !old(self)@.has_card(card_id) ==> deleted == Err::<(), KeikakuError>(
                KeikakuError::CardNotFound { card_id },
            ),
            !final(self)@.has_card(card_id),
    {
        match self.position_of(card_id) {
            None => Err(KeikakuError::CardNotFound { card_id }),
            Some(i) => {
                proof {
                    let before = study_card_views(self.study_cards@);
                    let after = study_card_views(self.study_cards@.remove(i as int));
                    assert(after =~= before.remove(i as int));
                    assert forall|k: int| 0 <= k < after.len() implies #[trigger] after[k]
                        == before[if k < i { k } else { k + 1 }] by {}
                    assert forall|k: int, l: int| 0 <= k < l < after.len() implies after[k].card_id
                        != after[l].card_id && after[k].card.question()
                        != after[l].card.question() by {
                        let k0 = if k < i { k } else { k + 1 };
                        let l0 = if l < i { l } else { l + 1 };
                        assert(after[k] == before[k0]);
                        assert(after[l] == before[l0]);
                    }
                    assert forall|k: int| 0 <= k < after.len() implies (
                    #[trigger] after[k]).memory.consistent() by {
                        assert(after[k] == before[if k < i { k } else { k + 1 }]);
                    }
                    assert forall|k: int| 0 <= k < after.len() implies after[k].card_id
                        != card_id by {
                        let k0 = if k < i { k } else { k + 1 };
                        assert(after[k] == before[k0]);
                        if k0 < i {
                            assert(before[k0].card_id != before[i as int].card_id);
                        } else {
                            assert(before[i as int].card_id != before[k0].card_id);
                        }
                    }
                }
                let (mut study_cards, _) = self.take_cards();
                study_cards.remove(i);
                proof {
                    let after = study_card_views(study_cards@);
                    assert forall|k: int, l: int| 0 <= k < l < study_cards.len() implies (
                    #[trigger] study_cards[k])@.card_id != (#[trigger] study_cards[l])@.card_id by {
                        assert(after[k] == study_cards[k]@ && after[l] == study_cards[l]@);
                    }
                }
                let positions = index_of(&study_cards);
                *self = KnowledgeSet { study_cards, positions, daily_history: self.daily_history };
                Ok(())
            },
        }
    }

    /// Records, as of the instant `now`, that the card with the identity
    /// `card_id` was reviewed: a review log made of `now`, `rating`,
    /// `interval` and `memory_state` joins its history, and `memory_state`
    /// becomes its current state.
    ///
    /// Fails with `CardNotFound` when the set has no such card, and then
    /// changes nothing.
    pub fn rate_card_at(
        &mut self,
        now: i64,
        card_id: u128,
        rating: Rating,
        interval: i64,
        memory_state: MemoryState,
    ) -> (rated: Result<(), KeikakuError>)
        requires
            old(self)@.wf(),
        ensures
            final(self)@.wf(),
            final(self)@ == old(self)@.after_rating(
                card_id,
                ReviewLog::at(now, rating, interval, memory_state),
            ),
            old(self)@.has_card(card_id) ==> rated is Ok,
            !old(self)@.has_card(card_id) ==> rated == Err::<(), KeikakuError>(
                KeikakuError::CardNotFound { card_id },
            ),
    {
        match self.position_of(card_id) {
            None => Err(KeikakuError::CardNotFound { card_id }),
            Some(i) => {
                let log = ReviewLog::new(now, rating, interval, memory_state);
                let ghost before = study_card_views(self.study_cards@);
                let ghost old_cards = self.study_cards@;
                let (mut study_cards, positions) = self.take_cards();
                study_cards[i].add_review(memory_state, log);
                proof {
                    let after = study_card_views(study_cards@);
                    assert(study_cards@ =~= old_cards.update(i as int, study_cards[i as int]));
                    assert(after =~= before.update(
                        i as int,
                        before[i as int].reviewed(memory_state, log),
                    ));
                    assert forall|k: int, l: int| 0 <= k < l < after.len() implies after[k].card_id
                        != after[l].card_id && after[k].card.question()
                        != after[l].card.question() by {
                        assert(after[k].card_id == before[k].card_id);
                        assert(after[l].card_id == before[l].card_id);
                        assert(after[k].card == before[k].card);
                        assert(after[l].card == before[l].card);
                    }
                    assert forall|k: int| 0 <= k < after.len() implies (
                    #[trigger] after[k]).memory.consistent() by {
                        if k != i {
                            assert(after[k] == before[k]);
                        }
                    }
                    assert forall|k: int| 0 <= k < after.len() implies (
                    #[trigger] after[k].card_id) == before[k].card_id by {}
                }
                *self = KnowledgeSet { study_cards, positions, daily_history: self.daily_history };
                Ok(())
            },
        }
    }

    /// Records a review of the card with the identity `card_id`, stamped
    /// with the present time.
    ///
    /// Fails with `CardNotFound` when the set has no such card, and then
    /// changes nothing.
    pub fn rate_card(
        &mut self,
        card_id: u128,
        rating: Rating,
        interval: i64,
        memory_state: MemoryState,
    ) -> (rated: Result<(), KeikakuError>)
        requires
            old(self)@.wf(),
        ensures
            final(self)@.wf(),
            !old(self)@.has_card(card_id) ==> {
                &&& final(self)@ == old(self)@
                &&& rated == Err::<(), KeikakuError>(KeikakuError::CardNotFound { card_id })
            },
            old(self)@.has_card(card_id) ==> {
                &&& rated is Ok
                &&& exists|now: i64|
                    final(self)@ == old(self)@.after_rating(
                        card_id,
                        #[trigger] ReviewLog::at(now, rating, interval, memory_state),
                    )
            },
    {
        self.rate_card_at(now_millis(), card_id, rating, interval, memory_state)
    }

    /// Adds the length of one lesson, in milliseconds, to the time studied.
    pub fn add_lesson_duration(&mut self, lesson_duration: i64)
        requires
            i64::MIN <= old(self)@.daily_history.total_duration + lesson_duration <= i64::MAX,
        ensures
            final(self)@ == old(self)@.after_lesson(lesson_duration),
    {
        proof {
            use_type_invariant(&*self);
        }
        let mut daily_history = self.daily_history;
        daily_history.add_lesson_duration(lesson_duration);
        self.daily_history = daily_history;
    }
}

/// Whether, of two cards of `cards`, the one at `i` is to be studied before
/// the one at `j`.
///
/// A reviewed card comes before a new one. Of two reviewed cards the one that
/// fell due earlier comes first; if both fell due at the same instant, and of
/// two new cards, the one created earlier comes first.
pub open spec fn more_urgent(cards: Seq<StudyCardView>, i: int, j: int) -> bool {
    match (cards[i].memory.current, cards[j].memory.current) {
        (Some(a), Some(b)) => a.due_at < b.due_at || (a.due_at == b.due_at && i < j),
        (Some(_), None) => true,
        (None, Some(_)) => false,
        (None, None) => i < j,
    }
}

/// Whether `order` lists the positions of exactly those cards of `cards` that
/// are to be studied at `now`, the most urgent first.
pub open spec fn is_fixation_order(cards: Seq<StudyCardView>, now: i64, order: Seq<usize>) -> bool {
    &&& forall|k: int|
        0 <= k < order.len() ==> {
            &&& (#[trigger] order[k]) < cards.len()
            &&& cards[order[k] as int].needs_study(now)
        }
    &&& forall|i: int|
        0 <= i < cards.len() && (#[trigger] cards[i]).needs_study(now) ==> order.contains(
            i as usize,
        )
    &&& forall|k: int, l: int|
        0 <= k < l < order.len() ==> more_urgent(
            cards,
            (#[trigger] order[k]) as int,
            (#[trigger] order[l]) as int,
        )
}

impl KnowledgeSet {
    /// The instant at which the reviewed card at `position` falls due.
    fn due_at(&self, position: usize) -> (due_at: i64)
        requires
            position < self@.cards.len(),
            self@.cards[position as int].memory.current is Some,
        ensures
            due_at == self@.cards[position as int].memory.current->0.due_at,
    {
        assert(self@.cards[position as int] == self.study_cards[position as int]@);
        match self.study_cards[position].memory().current_state() {
            Some(state) => state.due_at(),
            None => 0,
        }
    }

    /// The positions of the cards to study at the instant `now`, the most
    /// urgent first: a card is listed exactly when it is new or its state is
    /// due at `now`, and none is listed twice.
    pub fn fixation_order_at(&self, now: i64) -> (order: Vec<usize>)
        ensures
            is_fixation_order(self@.cards, now, order@),
            forall|i: int|
                0 <= i < self@.cards.len() ==> (order@.contains(i as usize) <==> (
                #[trigger] self@.cards[i]).is_new() || self@.cards[i].memory.current->0.due_at
                    <= now),
            order@.no_duplicates(),
            order.len() <= self@.cards.len(),
    {
        let ghost cards = self@.cards;
        let n = self.study_cards.len();
        let mut order: Vec<usize> = Vec::new();
        let mut i: usize = 0;
        while i < n
            invariant
                i <= n,
                n == cards.len(),
                cards == self@.cards,
                forall|k: int|
                    0 <= k < order.len() ==> {
                        &&& (#[trigger] order[k]) < i
                        &&& !cards[order[k] as int].is_new()
                        &&& cards[order[k] as int].needs_study(now)
                    },
                forall|j: int|
                    0 <= j < i && !(#[trigger] cards[j]).is_new() && cards[j].needs_study(now)
                        ==> order@.contains(j as usize),
                forall|k: int, l: int|
                    0 <= k < l < order.len() ==> more_urgent(
                        cards,
                        (#[trigger] order[k]) as int,
                        (#[trigger] order[l]) as int,
                    ),
            decreases n - i,
        {
            assert(cards[i as int] == self.study_cards[i as int]@);
            match self.study_cards[i].memory().current_state() {
                Some(state) => {
                    if state.due_at() <= now {
                        let mut p: usize = 0;
                        while p < order.len() && self.due_at(order[p]) <= state.due_at()
                            invariant
                                p <= order.len(),
                                i < n,
                                n == cards.len(),
                                cards == self@.cards,
                                cards[i as int].memory.current == Some(state),
                                forall|k: int|
                                    0 <= k < order.len() ==> (#[trigger] order[k]) < i
                                        && !cards[order[k] as int].is_new(),
                                forall|k: int|
                                    0 <= k < p ==> more_urgent(
                                        cards,
                                        (#[trigger] order[k]) as int,
                                        i as int,
                                    ),
                            decreases order.len() - p,
                        {
                            p = p + 1;
                        }
                        let ghost before = order@;
                        order.insert(p, i);
                        proof {
                            let after = order@;
                            assert(after.len() == before.len() + 1);
                            assert forall|k: int| 0 <= k < after.len() implies #[trigger] after[k]
                                == (if k < p {
                                before[k]
                            } else if k == p {
                                i
                            } else {
                                before[k - 1]
                            }) by {}
                            assert forall|j: int|
                                0 <= j < i + 1 && !(#[trigger] cards[j]).is_new()
                                    && cards[j].needs_study(now) implies after.contains(
                                j as usize,
                            ) by {
                                if j == i {
                                    assert(after[p as int] == i);
                                } else {
                                    assert(before.contains(j as usize));
                                    let k = choose|k: int|
                                        0 <= k < before.len() && before[k] == j as usize;
                                    if k < p {
                                        assert(after[k] == j as usize);
                                    } else {
                                        assert(after[k + 1] == j as usize);
                                    }
                                }
                            }
                            assert forall|k: int, l: int|
                                0 <= k < l < after.len() implies more_urgent(
                                cards,
                                (#[trigger] after[k]) as int,
                                (#[trigger] after[l]) as int,
                            ) by {
                                if l < p {
                                    assert(after[k] == before[k] && after[l] == before[l]);
                                } else if l == p {
                                    assert(after[k] == before[k]);
                                } else if k < p {
                                    assert(after[k] == before[k] && after[l] == before[l - 1]);
                                } else if k == p {
                                    assert(after[l] == before[l - 1]);
                                    if p < before.len() {
                                        if l - 1 > p {
                                            assert(more_urgent(
                                                cards,
                                                before[p as int] as int,
                                                before[l - 1] as int,
                                            ));
                                        }
                                    }
                                } else {
                                    assert(after[k] == before[k - 1] && after[l] == before[l - 1]);
                                }
                            }
                        }
                    }
                },
                None => {},
            }
            i = i + 1;
        }
        let mut i: usize = 0;
        while i < n
            invariant
                i <= n,
                n == cards.len(),
                cards == self@.cards,
                forall|k: int|
                    0 <= k < order.len() ==> {
                        &&& (#[trigger] order[k]) < n
                        &&& cards[order[k] as int].needs_study(now)
                        &&& cards[order[k] as int].is_new() ==> order[k] < i
                    },
                forall|j: int|
                    0 <= j < n && !(#[trigger] cards[j]).is_new() && cards[j].needs_study(now)
                        ==> order@.contains(j as usize),
                forall|j: int|
                    0 <= j < i && (#[trigger] cards[j]).is_new() ==> order@.contains(j as usize),
                forall|k: int, l: int|
                    0 <= k < l < order.len() ==> more_urgent(
                        cards,
                        (#[trigger] order[k]) as int,
                        (#[trigger] order[l]) as int,
                    ),
            decreases n - i,
        {
            assert(cards[i as int] == self.study_cards[i as int]@);
            if self.study_cards[i].memory().current_state().is_none() {
                let ghost before = order@;
                order.push(i);
                proof {
                    let after = order@;
                    assert forall|j: int|
                        0 <= j < n && !(#[trigger] cards[j]).is_new() && cards[j].needs_study(
                            now,
                        ) implies after.contains(j as usize) by {
                        let k = choose|k: int| 0 <= k < before.len() && before[k] == j as usize;
                        assert(after[k] == j as usize);
                    }
                    assert forall|j: int|
                        0 <= j < i + 1 && (#[trigger] cards[j]).is_new() implies after.contains(
                        j as usize,
                    ) by {
                        if j == i {
                            assert(after[before.len() as int] == i);
                        } else {
                            let k = choose|k: int| 0 <= k < before.len() && before[k] == j as usize;
                            assert(after[k] == j as usize);
                        }
                    }
                }
            }
            i = i + 1;
        }
        proof {
            law_fixation_lists_the_due_and_the_new(cards, now, order@);
        }
        order
    }

    /// The cards to study at the instant `now`: every card whose state is
    /// due and every card never reviewed, the most urgent first.
    pub fn cards_to_fixation_at(&self, now: i64) -> (selected: Vec<Card>)
        ensures
            exists|order: Seq<usize>| #[trigger]
                is_fixation_order(self@.cards, now, order) && selected.len() == order.len()
                    && forall|k: int|
                    0 <= k < order.len() ==> (#[trigger] selected[k])@
                        == self@.cards[order[k] as int].card,
            selected.len() <= self@.cards.len(),
    {
        let order = self.fixation_order_at(now);
        let mut selected: Vec<Card> = Vec::new();
        let mut k: usize = 0;
        while k < order.len()
            invariant
                k <= order.len(),
                selected.len() == k,
                is_fixation_order(self@.cards, now, order@),
                forall|m: int|
                    0 <= m < k ==> (#[trigger] selected[m])@ == self@.cards[order[m] as int].card,
            decreases order.len() - k,
        {
            let position = order[k];
            assert(self@.cards[position as int] == self.study_cards[position as int]@);
            selected.push(self.study_cards[position].card().clone());
            k = k + 1;
        }
        selected
    }

    /// The cards to study now: every card whose state is due and every card
    /// never reviewed, the most urgent first. Nothing is changed.
    pub fn cards_to_fixation(&self) -> (selected: Vec<Card>)
        ensures
            exists|now: i64, order: Seq<usize>| #[trigger]
                is_fixation_order(self@.cards, now, order) && selected.len() == order.len()
                    && forall|k: int|
                    0 <= k < order.len() ==> (#[trigger] selected[k])@
                        == self@.cards[order[k] as int].card,
            selected.len() <= self@.cards.len(),
    {
        self.cards_to_fixation_at(now_millis())
    }
}

impl KnowledgeSetView {
    /// The set after a lesson was completed: the daily rollup takes the
    /// snapshot of the cards and counts one more lesson. While no card has
    /// been reviewed the averages are recorded as 0.
    pub open spec fn rolled_up(self) -> KnowledgeSetView {
        let snapshot = statistics_spec(self.cards);
        KnowledgeSetView {
            daily_history: self.daily_history.updated(
                average_or_zero(snapshot.avg_stability),
                average_or_zero(snapshot.avg_difficulty),
                snapshot.total_words,
                snapshot.known_words,
                snapshot.new_words,
                snapshot.in_progress_words,
                snapshot.high_difficulty_words,
            ),
            ..self
        }
    }
}

impl KnowledgeSet {
    /// The cards counted by the stage of their study, and the averages of
    /// the memory parameters of those that were reviewed.
    pub fn statistics(&self) -> (snapshot: KnowledgeStatistics)
        ensures
            snapshot == statistics_spec(self@.cards),
    {
        statistics_of(&self.study_cards)
    }

    /// Takes a snapshot of the cards into the daily rollup and counts one
    /// more completed lesson. While no card has been reviewed the averages
    /// are recorded as 0.
    pub fn update_daily_history(&mut self)
        requires
            old(self)@.daily_history.lessons_completed < usize::MAX,
        ensures
            final(self)@ == old(self)@.rolled_up(),
    {
        proof {
            use_type_invariant(&*self);
        }
        let snapshot = self.statistics();
        let mut daily_history = self.daily_history;
        daily_history.update(
            match snapshot.avg_stability {
                Some(value) => value,
                None => 0,
            },
            match snapshot.avg_difficulty {
                Some(value) => value,
                None => 0,
            },
            snapshot.total_words,
            snapshot.known_words,
            snapshot.new_words,
            snapshot.in_progress_words,
            snapshot.high_difficulty_words,
        );
        self.daily_history = daily_history;
    }
}

/// Whether `cards` can be the cards of a knowledge set. The error names the
/// first fault found: a question asked twice is a `DuplicateCard`, an
/// identity used twice or a state that does not follow from the history is
/// `InvalidValues`.
fn check_cards(cards: &Vec<StudyCard>) -> (checked: Result<(), KeikakuError>)
    ensures
        checked is Ok <==> (KnowledgeSetView {
            cards: study_card_views(cards@),
            daily_history: arbitrary(),
        }).wf(),
        checked matches Err(error) ==> error is DuplicateCard || error is InvalidValues,
{
    let ghost views = study_card_views(cards@);
    let ghost whole = KnowledgeSetView { cards: views, daily_history: arbitrary() };
    let n = cards.len();
    let mut j: usize = 0;
    while j < n
        invariant
            j <= n,
            n == cards.len(),
            views == study_card_views(cards@),
            whole.cards == views,
            forall|a: int, b: int|
                0 <= a < b < j ==> views[a].card_id != views[b].card_id && views[a].card.question()
                    != views[b].card.question(),
            forall|a: int| 0 <= a < j ==> (#[trigger] views[a]).memory.consistent(),
        decreases n - j,
    {
        assert(views[j as int] == cards[j as int]@);
        if !cards[j].memory().is_consistent() {
            assert(!whole.cards[j as int].memory.consistent());
            return Err(
                KeikakuError::InvalidValues {
                    reason: String::from_str(
                        "the state of a card does not follow from its history",
                    ),
                },
            );
        }
        let mut i: usize = 0;
        while i < j
            invariant
                i <= j,
                j < n,
                n == cards.len(),
                views == study_card_views(cards@),
                whole.cards == views,
                forall|a: int|
                    0 <= a < i ==> views[a].card_id != views[j as int].card_id
                        && views[a].card.question() != views[j as int].card.question(),
            decreases j - i,
        {
            assert(views[i as int] == cards[i as int]@);
            assert(views[j as int] == cards[j as int]@);
            if cards[i].card_id() == cards[j].card_id() {
                assert(whole.cards[i as int].card_id == whole.cards[j as int].card_id);
                return Err(
                    KeikakuError::InvalidValues {
                        reason: String::from_str("two cards share an identity"),
                    },
                );
            }
            if cards[i].card().question().same_as(cards[j].card().question()) {
                assert(whole.cards[i as int].card.question()
                    == whole.cards[j as int].card.question());
                let question = String::from_str(cards[j].card().question().text());
                return Err(KeikakuError::DuplicateCard { question });
            }
            i = i + 1;
        }
        j = j + 1;
    }
    Ok(())
}

impl KnowledgeSet {
    /// Puts a stored knowledge set back together, after checking that its
    /// cards can stand together: no question is asked twice (else
    /// `DuplicateCard`), no identity is used twice and the state of every
    /// card follows from its history (else `InvalidValues`).
    pub fn restore(study_cards: Vec<StudyCard>, daily_history: DailyHistoryItem) -> (restored:
        Result<KnowledgeSet, KeikakuError>)
        ensures
            match restored {
                Ok(set) => set@ == (KnowledgeSetView {
                    cards: study_card_views(study_cards@),
                    daily_history: daily_history@,
                }) && set@.wf(),
                Err(error) => !(KnowledgeSetView {
                    cards: study_card_views(study_cards@),
                    daily_history: daily_history@,
                }).wf() && (error is DuplicateCard || error is InvalidValues),
            },
    {
        match check_cards(&study_cards) {
            Ok(()) => {
                proof {
                    let views = study_card_views(study_cards@);
                    assert forall|i: int, j: int| 0 <= i < j < study_cards.len() implies (
                    #[trigger] study_cards[i])@.card_id != (#[trigger] study_cards[j])@.card_id by {
                        assert(views[i] == study_cards[i]@ && views[j] == study_cards[j]@);
                    }
                }
                let positions = index_of(&study_cards);
                Ok(KnowledgeSet { study_cards, positions, daily_history })
            },
            Err(error) => Err(error),
        }
    }
}

/// The cards of `cards` that were never reviewed, in their order.
pub open spec fn new_cards(cards: Seq<StudyCardView>) -> Seq<StudyCardView> {
    cards.filter(|card: StudyCardView| card.is_new())
}

impl KnowledgeSet {
    /// The cards to introduce in a lesson: every card never reviewed, with
    /// its identity, in the order of creation. Nothing is changed.
    pub fn cards_to_lesson(&self) -> (selected: Vec<(u128, Card)>)
        ensures
            selected.len() == new_cards(self@.cards).len(),
            forall|k: int|
                0 <= k < selected.len() ==> {
                    &&& (#[trigger] selected[k]).0 == new_cards(self@.cards)[k].card_id
                    &&& selected[k].1@ == new_cards(self@.cards)[k].card
                },
    {
        let ghost cards = self@.cards;
        let ghost fresh = |card: StudyCardView| card.is_new();
        let mut selected: Vec<(u128, Card)> = Vec::new();
        let mut i: usize = 0;
        proof {
            reveal(Seq::filter);
            assert(cards.take(0) =~= Seq::<StudyCardView>::empty());
        }
        while i < self.study_cards.len()
            invariant
                i <= self.study_cards.len(),
                cards == self@.cards,
                fresh == (|card: StudyCardView| card.is_new()),
                selected.len() == cards.take(i as int).filter(fresh).len(),
                forall|k: int|
                    0 <= k < selected.len() ==> {
                        &&& (#[trigger] selected[k]).0 == cards.take(i as int).filter(
                            fresh,
                        )[k].card_id
                        &&& selected[k].1@ == cards.take(i as int).filter(fresh)[k].card
                    },
            decreases self.study_cards.len() - i,
        {
            proof {
                reveal(Seq::filter);
                assert(cards[i as int] == self.study_cards[i as int]@);
                assert(cards.take(i + 1).drop_last() == cards.take(i as int));
                assert(cards.take(i + 1).last() == cards[i as int]);
            }
            if self.study_cards[i].memory().current_state().is_none() {
                selected.push((self.study_cards[i].card_id(), self.study_cards[i].card().clone()));
            }
            i = i + 1;
        }
        assert(cards.take(self.study_cards.len() as int) == cards);
        selected
    }
}

} // verus!
