//! What holds of a knowledge set whatever is done to it.

use vstd::prelude::*;
use crate::domain::knowledge::card::{CardView, StudyCardView};
use crate::domain::knowledge::daily_history::DailyHistoryView;
use crate::domain::knowledge::knowledge_set::{is_fixation_order, more_urgent, KnowledgeSetView};
use crate::domain::knowledge::statistics::{count_with_status, status_of, LearningStatus};
use crate::domain::memory::ReviewLog;

verus! {

/// A set without cards.
pub open spec fn empty_set(daily_history: DailyHistoryView) -> KnowledgeSetView {
    KnowledgeSetView { cards: Seq::empty(), daily_history }
}

/// The set after one attempt after another to add a card, each under the
/// identity given with it.
pub open spec fn after_creating_all(set: KnowledgeSetView, requests: Seq<(CardView, u128)>)
    -> KnowledgeSetView
    decreases requests.len(),
{
    if requests.len() == 0 {
        set
    } else {
        after_creating_all(set, requests.drop_last()).after_create(
            requests.last().0,
            requests.last().1,
        )
    }
}

/// The set after one attempt after another to record a review of the card
/// with the identity `card_id`.
pub open spec fn after_rating_all(set: KnowledgeSetView, card_id: u128, reviews: Seq<ReviewLog>)
    -> KnowledgeSetView
    decreases reviews.len(),
{
    if reviews.len() == 0 {
        set
    } else {
        after_rating_all(set, card_id, reviews.drop_last()).after_rating(card_id, reviews.last())
    }
}

/// No review of `reviews` is older than one before it.
pub open spec fn in_order_of_time(reviews: Seq<ReviewLog>) -> bool {
    forall|i: int, j: int|
        0 <= i <= j < reviews.len() ==> reviews[i].timestamp <= reviews[j].timestamp
}

/// Adding a card whose question and identity are free keeps the set well
/// formed, makes it one card longer, and takes the question and the identity.
pub proof fn law_created_card_joins(set: KnowledgeSetView, card: CardView, card_id: u128)
    requires
        set.wf(),
        !set.has_question(card.question()),
        !set.has_card(card_id),
    ensures
        set.after_create(card, card_id).wf(),
        set.after_create(card, card_id).cards.len() == set.cards.len() + 1,
        set.after_create(card, card_id).has_question(card.question()),
        set.after_create(card, card_id).has_card(card_id),
{
    let after = set.after_create(card, card_id);
    let last = set.cards.len() as int;
    assert(after.cards[last] == StudyCardView::fresh(card_id, card));
    assert(after.cards[last].card.question() == card.question());
    assert(after.cards[last].card_id == card_id);
    assert forall|i: int, j: int| 0 <= i < j < after.cards.len() implies after.cards[i].card_id
        != after.cards[j].card_id && after.cards[i].card.question()
        != after.cards[j].card.question() by {
        assert(after.cards[i] == set.cards[i]);
        if j < last {
            assert(after.cards[j] == set.cards[j]);
        }
    }
    assert forall|i: int| 0 <= i < after.cards.len() implies (
    #[trigger] after.cards[i]).memory.consistent() by {
        if i < last {
            assert(after.cards[i] == set.cards[i]);
        }
    }
}

/// Whatever cards are offered to an empty set, and in whatever order, no two
/// cards of the set ever ask the same question or share an identity.
pub proof fn law_questions_stay_unique(
    daily_history: DailyHistoryView,
    requests: Seq<(CardView, u128)>,
)
    ensures
        after_creating_all(empty_set(daily_history), requests).wf(),
        after_creating_all(empty_set(daily_history), requests).distinct_questions(),
        after_creating_all(empty_set(daily_history), requests).cards.len() <= requests.len(),
    decreases requests.len(),
{
    if requests.len() > 0 {
        let before = after_creating_all(empty_set(daily_history), requests.drop_last());
        law_questions_stay_unique(daily_history, requests.drop_last());
        let card = requests.last().0;
        let card_id = requests.last().1;
        if !before.has_question(card.question()) && !before.has_card(card_id) {
            law_created_card_joins(before, card, card_id);
        }
    }
}

/// Once a card was added, offering a card with the same question again, under
/// any identity, changes nothing: the set keeps its size.
pub proof fn law_duplicate_is_refused(
    set: KnowledgeSetView,
    card: CardView,
    card_id: u128,
    again: CardView,
    again_id: u128,
)
    requires
        set.wf(),
        !set.has_question(card.question()),
        !set.has_card(card_id),
        again.question() == card.question(),
    ensures
        set.after_create(card, card_id).has_question(again.question()),
        set.after_create(card, card_id).after_create(again, again_id) == set.after_create(
            card,
            card_id,
        ),
{
    law_created_card_joins(set, card, card_id);
}

/// Deleting a card of the set makes the set one card shorter and the card
/// unknown to it, so that deleting it once more finds nothing and changes
/// nothing.
pub proof fn law_deleted_card_is_gone(set: KnowledgeSetView, card_id: u128)
    requires
        set.wf(),
        set.has_card(card_id),
    ensures
        set.after_delete(card_id).wf(),
        set.after_delete(card_id).cards.len() == set.cards.len() - 1,
        !set.after_delete(card_id).has_card(card_id),
        set.after_delete(card_id).after_delete(card_id) == set.after_delete(card_id),
{
    let p = set.position(card_id);
    let after = set.after_delete(card_id);
    assert forall|k: int| 0 <= k < after.cards.len() implies #[trigger] after.cards[k]
        == set.cards[if k < p {
        k
    } else {
        k + 1
    }] by {}
    assert forall|k: int, l: int| 0 <= k < l < after.cards.len() implies after.cards[k].card_id
        != after.cards[l].card_id && after.cards[k].card.question()
        != after.cards[l].card.question() by {
        let k0 = if k < p { k } else { k + 1 };
        let l0 = if l < p { l } else { l + 1 };
        assert(after.cards[k] == set.cards[k0]);
        assert(after.cards[l] == set.cards[l0]);
    }
    assert forall|k: int| 0 <= k < after.cards.len() implies (
    #[trigger] after.cards[k]).memory.consistent() by {
        assert(after.cards[k] == set.cards[if k < p { k } else { k + 1 }]);
    }
    assert forall|k: int| 0 <= k < after.cards.len() implies after.cards[k].card_id != card_id by {
        let k0 = if k < p { k } else { k + 1 };
        assert(after.cards[k] == set.cards[k0]);
        if k0 < p {
            assert(set.cards[k0].card_id != set.cards[p].card_id);
        } else {
            assert(set.cards[p].card_id != set.cards[k0].card_id);
        }
    }
}

/// Recording a review of a card of the set lengthens the history of that card
/// by this one review, makes the state the review led to the current one,
/// and touches no other card.
pub proof fn law_state_follows_last_review(set: KnowledgeSetView, card_id: u128, log: ReviewLog)
    requires
        set.wf(),
        set.has_card(card_id),
    ensures
        set.after_rating(card_id, log).wf(),
        set.after_rating(card_id, log).cards.len() == set.cards.len(),
        set.after_rating(card_id, log).has_card(card_id),
        set.after_rating(card_id, log).position(card_id) == set.position(card_id),
        set.after_rating(card_id, log).cards[set.position(card_id)].memory.logs
            == set.cards[set.position(card_id)].memory.logs.push(log),
        set.after_rating(card_id, log).cards[set.position(card_id)].memory.current == Some(
            set.after_rating(card_id, log).cards[set.position(
                card_id,
            )].memory.logs.last().resulting_state,
        ),
        forall|i: int|
            0 <= i < set.cards.len() && i != set.position(card_id) ==> set.after_rating(
                card_id,
                log,
            ).cards[i] == set.cards[i],
{
    let p = set.position(card_id);
    let after = set.after_rating(card_id, log);
    assert(after.cards[p].card_id == card_id);
    assert forall|k: int, l: int| 0 <= k < l < after.cards.len() implies after.cards[k].card_id
        != after.cards[l].card_id && after.cards[k].card.question()
        != after.cards[l].card.question() by {
        assert(after.cards[k].card_id == set.cards[k].card_id);
        assert(after.cards[l].card_id == set.cards[l].card_id);
        assert(after.cards[k].card == set.cards[k].card);
        assert(after.cards[l].card == set.cards[l].card);
    }
    assert forall|k: int| 0 <= k < after.cards.len() implies (
    #[trigger] after.cards[k]).memory.consistent() by {
        if k != p {
            assert(after.cards[k] == set.cards[k]);
        }
    }
    let q = after.position(card_id);
    if q != p {
        if q < p {
            assert(after.cards[q].card_id != after.cards[p].card_id);
        } else {
            assert(after.cards[p].card_id != after.cards[q].card_id);
        }
    }
}

/// After any number of reviews of a card of the set, the history of the card
/// is what it was with these reviews behind it, one for each rating, and its
/// state is the one the last review led to. If the history was in order of
/// time, the reviews are, and none of them is older than the last review of
/// the history, the history is still in order of time.
pub proof fn law_history_grows_in_order(
    set: KnowledgeSetView,
    card_id: u128,
    reviews: Seq<ReviewLog>,
)
    requires
        set.wf(),
        set.has_card(card_id),
    ensures
        after_rating_all(set, card_id, reviews).wf(),
        after_rating_all(set, card_id, reviews).has_card(card_id),
        after_rating_all(set, card_id, reviews).position(card_id) == set.position(card_id),
        after_rating_all(set, card_id, reviews).cards.len() == set.cards.len(),
        after_rating_all(set, card_id, reviews).cards[set.position(card_id)].memory.logs
            == set.cards[set.position(card_id)].memory.logs + reviews,
        after_rating_all(set, card_id, reviews).cards[set.position(card_id)].memory.logs.len()
            == set.cards[set.position(card_id)].memory.logs.len() + reviews.len(),
        reviews.len() > 0 ==> after_rating_all(set, card_id, reviews).cards[set.position(
            card_id,
        )].memory.current == Some(reviews.last().resulting_state),
        set.cards[set.position(card_id)].memory.chronological() && in_order_of_time(reviews) && (
        reviews.len() > 0 ==> set.cards[set.position(card_id)].memory.admits(reviews[0]))
            ==> after_rating_all(set, card_id, reviews).cards[set.position(
            card_id,
        )].memory.chronological(),
    decreases reviews.len(),
{
    let p = set.position(card_id);
    let old_logs = set.cards[p].memory.logs;
    if reviews.len() == 0 {
        assert(old_logs + reviews =~= old_logs);
    } else {
        let earlier = reviews.drop_last();
        let before = after_rating_all(set, card_id, earlier);
        law_history_grows_in_order(set, card_id, earlier);
        law_state_follows_last_review(before, card_id, reviews.last());
        let after = after_rating_all(set, card_id, reviews);
        assert(after.cards[p].memory.logs =~= old_logs + reviews);
        if set.cards[p].memory.chronological() && in_order_of_time(reviews)
            && set.cards[p].memory.admits(reviews[0]) {
            assert(in_order_of_time(earlier)) by {
                assert forall|i: int, j: int|
                    0 <= i <= j < earlier.len() implies earlier[i].timestamp
                    <= earlier[j].timestamp by {
                    assert(earlier[i] == reviews[i] && earlier[j] == reviews[j]);
                }
            }
            if earlier.len() > 0 {
                assert(earlier[0] == reviews[0]);
            }
            let logs = after.cards[p].memory.logs;
            assert forall|i: int, j: int| 0 <= i <= j < logs.len() implies logs[i].timestamp
                <= logs[j].timestamp by {
                let n = old_logs.len() as int;
                if j < n {
                    assert(logs[i] == old_logs[i] && logs[j] == old_logs[j]);
                } else if i < n {
                    assert(logs[i] == old_logs[i]);
                    assert(logs[j] == reviews[j - n]);
                    assert(old_logs[i].timestamp <= old_logs.last().timestamp);
                    assert(reviews[0].timestamp <= reviews[j - n].timestamp);
                } else {
                    assert(logs[i] == reviews[i - n] && logs[j] == reviews[j - n]);
                }
            }
        }
    }
}

/// A card that was reviewed is no longer new: the number of new cards of the
/// set falls by one when a new card is rated, and stays when a reviewed card
/// is rated.
pub proof fn law_rated_card_is_not_new(set: KnowledgeSetView, card_id: u128, log: ReviewLog)
    requires
        set.wf(),
        set.has_card(card_id),
    ensures
        status_of(set.after_rating(card_id, log).cards[set.position(card_id)])
            != LearningStatus::New,
        count_with_status(set.after_rating(card_id, log).cards, LearningStatus::New)
            == count_with_status(set.cards, LearningStatus::New) - (if set.cards[set.position(
            card_id,
        )].is_new() {
            1int
        } else {
            0int
        }),
{
    let p = set.position(card_id);
    lemma_count_after_update(
        set.cards,
        p,
        set.cards[p].reviewed(log.resulting_state, log),
        LearningStatus::New,
    );
}

/// Replacing one card changes the number of cards in a stage by what the
/// old card and the new one contribute to it.
pub proof fn lemma_count_after_update(
    cards: Seq<StudyCardView>,
    position: int,
    card: StudyCardView,
    status: LearningStatus,
)
    requires
        0 <= position < cards.len(),
    ensures
        count_with_status(cards.update(position, card), status) == count_with_status(
            cards,
            status,
        ) - (if status_of(cards[position]) == status {
            1int
        } else {
            0int
        }) + (if status_of(card) == status {
            1int
        } else {
            0int
        }),
    decreases cards.len(),
{
    let updated = cards.update(position, card);
    if position == cards.len() - 1 {
        assert(updated.drop_last() =~= cards.drop_last());
    } else {
        assert(updated.drop_last() =~= cards.drop_last().update(position, card));
        lemma_count_after_update(cards.drop_last(), position, card, status);
    }
}

/// Of two cards at different places, exactly one is more urgent than the
/// other.
pub proof fn lemma_urgency_is_total(cards: Seq<StudyCardView>, i: int, j: int)
    ensures
        i != j ==> (more_urgent(cards, i, j) <==> !more_urgent(cards, j, i)),
        !more_urgent(cards, i, i),
{
}

/// The cards to study at an instant can be put in order of urgency in one way
/// only.
pub proof fn law_fixation_order_is_unique(
    cards: Seq<StudyCardView>,
    now: i64,
    first: Seq<usize>,
    second: Seq<usize>,
)
    requires
        is_fixation_order(cards, now, first),
        is_fixation_order(cards, now, second),
    ensures
        first == second,
{
    lemma_orders_agree(cards, now, first, second, first.len() as int);
    lemma_orders_agree(cards, now, second, first, second.len() as int);
    assert(first =~= second);
}

/// Two orders of urgency of the same cards agree on their first `k` places.
proof fn lemma_orders_agree(
    cards: Seq<StudyCardView>,
    now: i64,
    first: Seq<usize>,
    second: Seq<usize>,
    k: int,
)
    requires
        is_fixation_order(cards, now, first),
        is_fixation_order(cards, now, second),
        0 <= k <= first.len(),
    ensures
        k <= second.len(),
        forall|m: int| 0 <= m < k ==> first[m] == second[m],
    decreases k,
{
    if k > 0 {
        lemma_orders_agree(cards, now, first, second, k - 1);
        let a = first[k - 1];
        assert(cards[a as int].needs_study(now));
        assert(second.contains(a));
        let m = choose|m: int| 0 <= m < second.len() && second[m] == a;
        if m < k - 1 {
            assert(first[m] == second[m]);
            assert(more_urgent(cards, first[m] as int, first[k - 1] as int));
            lemma_urgency_is_total(cards, a as int, a as int);
        }
        assert(m >= k - 1);
        if m > k - 1 {
            let b = second[k - 1];
            assert(more_urgent(cards, b as int, a as int));
            assert(cards[b as int].needs_study(now));
            assert(first.contains(b));
            let n = choose|n: int| 0 <= n < first.len() && first[n] == b;
            if n < k - 1 {
                assert(second[n] == first[n]);
                assert(more_urgent(cards, second[n] as int, second[k - 1] as int));
                lemma_urgency_is_total(cards, b as int, b as int);
            } else if n == k - 1 {
                lemma_urgency_is_total(cards, a as int, a as int);
            } else {
                assert(more_urgent(cards, first[k - 1] as int, first[n] as int));
                lemma_urgency_is_total(cards, a as int, b as int);
            }
        }
    }
}

/// A list of places in which none occurs twice and each lies below `bound` is
/// no longer than `bound`.
pub proof fn lemma_distinct_places_are_few(places: Seq<usize>, bound: nat)
    requires
        places.no_duplicates(),
        forall|k: int| 0 <= k < places.len() ==> (#[trigger] places[k]) < bound,
    ensures
        places.len() <= bound,
    decreases bound,
{
    if places.len() > 0 {
        assert(places[0] < bound);
        let top = (bound - 1) as nat;
        if exists|k: int| 0 <= k < places.len() && #[trigger] places[k] == top {
            let at = choose|k: int| 0 <= k < places.len() && #[trigger] places[k] == top;
            let rest = places.remove(at);
            assert forall|k: int| 0 <= k < rest.len() implies (#[trigger] rest[k]) < top by {
                let from = if k < at { k } else { k + 1 };
                assert(rest[k] == places[from]);
                assert(places[from] != places[at]);
            }
            assert forall|k: int, l: int| 0 <= k < l < rest.len() implies rest[k] != rest[l] by {
                let k0 = if k < at { k } else { k + 1 };
                let l0 = if l < at { l } else { l + 1 };
                assert(rest[k] == places[k0] && rest[l] == places[l0]);
            }
            lemma_distinct_places_are_few(rest, top);
        } else {
            assert forall|k: int| 0 <= k < places.len() implies (#[trigger] places[k]) < top by {
                assert(places[k] < bound);
            }
            lemma_distinct_places_are_few(places, top);
        }
    }
}

/// An order of fixation lists a card exactly when the card is new or its
/// state is due at the instant, a due instant equal to the instant included.
/// It lists no card twice, and no more cards than there are.
pub proof fn law_fixation_lists_the_due_and_the_new(
    cards: Seq<StudyCardView>,
    now: i64,
    order: Seq<usize>,
)
    requires
        cards.len() <= usize::MAX,
        is_fixation_order(cards, now, order),
    ensures
        forall|i: int|
            0 <= i < cards.len() ==> (order.contains(i as usize) <==> (#[trigger] cards[i]).is_new()
                || cards[i].memory.current->0.due_at <= now),
        forall|k: int| 0 <= k < order.len() ==> (#[trigger] order[k]) < cards.len(),
        order.no_duplicates(),
        order.len() <= cards.len(),
{
    assert forall|k: int, l: int| 0 <= k < l < order.len() implies order[k] != order[l] by {
        assert(more_urgent(cards, order[k] as int, order[l] as int));
        lemma_urgency_is_total(cards, order[k] as int, order[k] as int);
    }
    assert forall|k: int, l: int| 0 <= k < order.len() && 0 <= l < order.len() && k
        != l implies order[k] != order[l] by {
        if k < l {
            assert(order[k] != order[l]);
        } else {
            assert(order[l] != order[k]);
        }
    }
    lemma_distinct_places_are_few(order, cards.len());
    assert forall|i: int| 0 <= i < cards.len() implies (order.contains(i as usize) <==> (
    #[trigger] cards[i]).is_new() || cards[i].memory.current->0.due_at <= now) by {
        if order.contains(i as usize) {
            let k = choose|k: int| 0 <= k < order.len() && order[k] == i as usize;
            assert(cards[order[k] as int].needs_study(now));
        }
        if cards[i].is_new() || cards[i].memory.current->0.due_at <= now {
            assert(cards[i].needs_study(now));
        }
    }
}

/// Of three cards, the first due just before the instant, the second due
/// just after it and the third never reviewed, the order of fixation takes
/// the first and the third, in this order, and leaves the second.
pub proof fn law_fixation_of_three(cards: Seq<StudyCardView>, now: i64, order: Seq<usize>)
    requires
        cards.len() == 3,
        cards[0].memory.current is Some,
        cards[0].memory.current->0.due_at == now - 1,
        cards[1].memory.current is Some,
        cards[1].memory.current->0.due_at == now + 1,
        cards[2].memory.current is None,
        is_fixation_order(cards, now, order),
    ensures
        order == seq![0usize, 2usize],
{
    let expected = seq![0usize, 2usize];
    assert(expected[0] == 0 && expected[1] == 2);
    assert(cards[0].needs_study(now));
    assert(!cards[1].needs_study(now));
    assert(cards[2].needs_study(now));
    assert(more_urgent(cards, 0, 2));
    assert forall|i: int| 0 <= i < cards.len() && (#[trigger] cards[i]).needs_study(
        now,
    ) implies expected.contains(i as usize) by {
        if i == 0 {
            assert(expected[0] == 0usize);
        } else {
            assert(i == 2);
            assert(expected[1] == 2usize);
        }
    }
    assert(is_fixation_order(cards, now, expected));
    law_fixation_order_is_unique(cards, now, order, expected);
}

} // verus!
