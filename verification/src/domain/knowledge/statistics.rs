//! How far the learner has come: the cards of a collection counted by the
//! stage of their study, and the averages of their memory parameters.

use vstd::prelude::*;
use crate::domain::knowledge::card::{StudyCard, StudyCardView};
use crate::domain::knowledge::knowledge_set::study_card_views;

verus! {

/// A card whose stability has reached three weeks counts as known.
pub const KNOWN_STABILITY: u64 = 21000;

/// A card that is not yet known and whose difficulty has reached 7.0 counts
/// as hard.
pub const HIGH_DIFFICULTY: u64 = 7000;

/// The stage of study a card is in. Every card is in exactly one.
#[derive(Debug, Clone, Copy, PartialEq, Eq, Structural)]
pub enum LearningStatus {
    /// Never reviewed.
    New,
    /// Reviewed, neither known nor hard.
    InProgress,
    /// Reviewed, with a stability of at least `KNOWN_STABILITY`.
    Known,
    /// Reviewed, not known, with a difficulty of at least `HIGH_DIFFICULTY`.
    HighDifficulty,
}

/// The stage of study of `card`.
pub open spec fn status_of(card: StudyCardView) -> LearningStatus {
    match card.memory.current {
        None => LearningStatus::New,
        Some(state) => if state.stability.value() >= KNOWN_STABILITY {
            LearningStatus::Known
        } else if state.difficulty.value() >= HIGH_DIFFICULTY {
            LearningStatus::HighDifficulty
        } else {
            LearningStatus::InProgress
        },
    }
}

/// How many of `cards` are in the stage `status`.
pub open spec fn count_with_status(cards: Seq<StudyCardView>, status: LearningStatus) -> nat
    decreases cards.len(),
{
    if cards.len() == 0 {
        0
    } else {
        count_with_status(cards.drop_last(), status) + if status_of(cards.last()) == status {
            1nat
        } else {
            0nat
        }
    }
}

/// The stabilities of the reviewed cards among `cards`, added up.
pub open spec fn total_stability(cards: Seq<StudyCardView>) -> nat
    decreases cards.len(),
{
    if cards.len() == 0 {
        0
    } else {
        total_stability(cards.drop_last()) + match cards.last().memory.current {
            None => 0nat,
            Some(state) => state.stability.value() as nat,
        }
    }
}

/// The difficulties of the reviewed cards among `cards`, added up.
pub open spec fn total_difficulty(cards: Seq<StudyCardView>) -> nat
    decreases cards.len(),
{
    if cards.len() == 0 {
        0
    } else {
        total_difficulty(cards.drop_last()) + match cards.last().memory.current {
            None => 0nat,
            Some(state) => state.difficulty.value() as nat,
        }
    }
}

/// How many of `cards` have been reviewed.
pub open spec fn reviewed_count(cards: Seq<StudyCardView>) -> nat {
    (cards.len() - count_with_status(cards, LearningStatus::New)) as nat
}

/// `total` shared among `count`, rounded down; nothing when there is nothing
/// to share among.
pub open spec fn average(total: nat, count: nat) -> Option<u64> {
    if count == 0 {
        None
    } else {
        Some((total / count) as u64)
    }
}

/// What is recorded for an average: the average itself, and 0 where there
/// was nothing to average.
pub open spec fn average_or_zero(average: Option<u64>) -> u64 {
    match average {
        Some(value) => value,
        None => 0,
    }
}

/// A snapshot of a collection: its cards counted by stage, and the average
/// stability and difficulty of those that were reviewed, in thousandths.
#[derive(Debug, Clone, Copy, PartialEq, Eq, Structural)]
pub struct KnowledgeStatistics {
    pub avg_stability: Option<u64>,
    pub avg_difficulty: Option<u64>,
    pub total_words: usize,
    pub new_words: usize,
    pub known_words: usize,
    pub in_progress_words: usize,
    pub high_difficulty_words: usize,
}

/// The snapshot of `cards`.
pub open spec fn statistics_spec(cards: Seq<StudyCardView>) -> KnowledgeStatistics {
    KnowledgeStatistics {
        avg_stability: average(total_stability(cards), reviewed_count(cards)),
        avg_difficulty: average(total_difficulty(cards), reviewed_count(cards)),
        total_words: cards.len() as usize,
        new_words: count_with_status(cards, LearningStatus::New) as usize,
        known_words: count_with_status(cards, LearningStatus::Known) as usize,
        in_progress_words: count_with_status(cards, LearningStatus::InProgress) as usize,
        high_difficulty_words: count_with_status(cards, LearningStatus::HighDifficulty) as usize,
    }
}

/// Every card is counted in exactly one stage, and the totals of the
/// parameters are bounded by what the reviewed cards can hold.
pub proof fn lemma_counts_partition(cards: Seq<StudyCardView>)
    ensures
        count_with_status(cards, LearningStatus::New) + count_with_status(
            cards,
            LearningStatus::InProgress,
        ) + count_with_status(cards, LearningStatus::Known) + count_with_status(
            cards,
            LearningStatus::HighDifficulty,
        ) == cards.len(),
        total_stability(cards) <= reviewed_count(cards) * u64::MAX,
        total_difficulty(cards) <= reviewed_count(cards) * u64::MAX,
    decreases cards.len(),
{
    if cards.len() > 0 {
        lemma_counts_partition(cards.drop_last());
    }
}

/// The stage of study of one card.
pub fn learning_status(card: &StudyCard) -> (status: LearningStatus)
    ensures
        status == status_of(card@),
{
    match card.memory().current_state() {
        None => LearningStatus::New,
        Some(state) => {
            if state.stability().value() >= KNOWN_STABILITY {
                LearningStatus::Known
            } else if state.difficulty().value() >= HIGH_DIFFICULTY {
                LearningStatus::HighDifficulty
            } else {
                LearningStatus::InProgress
            }
        },
    }
}

/// Counts `cards` by stage and averages the parameters of the reviewed ones.
pub fn statistics_of(cards: &Vec<StudyCard>) -> (statistics: KnowledgeStatistics)
    ensures
        statistics == statistics_spec(study_card_views(cards@)),
{
    let ghost views = study_card_views(cards@);
    let n = cards.len();
    let mut new_words: usize = 0;
    let mut known_words: usize = 0;
    let mut in_progress_words: usize = 0;
    let mut high_difficulty_words: usize = 0;
    let mut stability_sum: u128 = 0;
    let mut difficulty_sum: u128 = 0;
    let mut i: usize = 0;
    while i < n
        invariant
            i <= n,
            n == cards.len(),
            views == study_card_views(cards@),
            new_words == count_with_status(views.take(i as int), LearningStatus::New),
            known_words == count_with_status(views.take(i as int), LearningStatus::Known),
            in_progress_words == count_with_status(
                views.take(i as int),
                LearningStatus::InProgress,
            ),
            high_difficulty_words == count_with_status(
                views.take(i as int),
                LearningStatus::HighDifficulty,
            ),
            stability_sum == total_stability(views.take(i as int)),
            difficulty_sum == total_difficulty(views.take(i as int)),
        decreases n - i,
    {
        proof {
            let next = views.take(i + 1);
            assert(next.drop_last() == views.take(i as int));
            assert(next.last() == cards[i as int]@);
            lemma_counts_partition(views.take(i as int));
            lemma_counts_partition(next);
            assert(reviewed_count(next) <= i + 1);
            assert(reviewed_count(next) * u64::MAX <= (i + 1) * u64::MAX) by (nonlinear_arith)
                requires
                    reviewed_count(next) <= i + 1,
            ;
        }
        match learning_status(&cards[i]) {
            LearningStatus::New => {
                new_words = new_words + 1;
            },
            LearningStatus::Known => {
                known_words = known_words + 1;
            },
            LearningStatus::InProgress => {
                in_progress_words = in_progress_words + 1;
            },
            LearningStatus::HighDifficulty => {
                high_difficulty_words = high_difficulty_words + 1;
            },
        }
        match cards[i].memory().current_state() {
            None => {},
            Some(state) => {
                stability_sum = stability_sum + state.stability().value() as u128;
                difficulty_sum = difficulty_sum + state.difficulty().value() as u128;
            },
        }
        i = i + 1;
    }
    proof {
        assert(views.take(n as int) == views);
        lemma_counts_partition(views);
    }
    let reviewed = n - new_words;
    let (avg_stability, avg_difficulty) = if reviewed == 0 {
        (None, None)
    } else {
        proof {
            let r = reviewed as nat;
            assert(total_stability(views) / r <= u64::MAX) by (nonlinear_arith)
                requires
                    r > 0,
                    total_stability(views) <= r * u64::MAX,
            ;
            assert(total_difficulty(views) / r <= u64::MAX) by (nonlinear_arith)
                requires
                    r > 0,
                    total_difficulty(views) <= r * u64::MAX,
            ;
        }
        (
            Some((stability_sum / reviewed as u128) as u64),
            Some((difficulty_sum / reviewed as u128) as u64),
        )
    };
    KnowledgeStatistics {
        avg_stability,
        avg_difficulty,
        total_words: n,
        new_words,
        known_words,
        in_progress_words,
        high_difficulty_words,
    }
}

} // verus!
