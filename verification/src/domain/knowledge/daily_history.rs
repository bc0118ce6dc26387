//! The rollup of one day of study.

use vstd::prelude::*;
use crate::domain::clock::now_millis;

verus! {

/// What a daily history item holds. Averages are in thousandths, the
/// duration in milliseconds.
pub struct DailyHistoryView {
    pub timestamp: i64,
    pub avg_stability: Option<u64>,
    pub avg_difficulty: Option<u64>,
    pub total_words: usize,
    pub new_words: usize,
    pub known_words: usize,
    pub in_progress_words: usize,
    pub high_difficulty_words: usize,
    pub lessons_completed: usize,
    pub total_duration: i64,
}

impl DailyHistoryView {
    /// The item of a day on which nothing has happened yet.
    pub open spec fn blank(timestamp: i64) -> DailyHistoryView {
        DailyHistoryView {
            timestamp,
            avg_stability: None,
            avg_difficulty: None,
            total_words: 0,
            new_words: 0,
            known_words: 0,
            in_progress_words: 0,
            high_difficulty_words: 0,
            lessons_completed: 0,
            total_duration: 0,
        }
    }

    /// The item after a lesson was completed: the aggregates are replaced,
    /// the averages are there from now on, one more lesson is counted, time
    /// and duration stay.
    pub open spec fn updated(
        self,
        avg_stability: u64,
        avg_difficulty: u64,
        total_words: usize,
        known_words: usize,
        new_words: usize,
        in_progress_words: usize,
        high_difficulty_words: usize,
    ) -> DailyHistoryView {
        DailyHistoryView {
            timestamp: self.timestamp,
            avg_stability: Some(avg_stability),
            avg_difficulty: Some(avg_difficulty),
            total_words,
            new_words,
            known_words,
            in_progress_words,
            high_difficulty_words,
            lessons_completed: (self.lessons_completed + 1) as usize,
            total_duration: self.total_duration,
        }
    }

    /// The item after `lesson_duration` more milliseconds of study.
    pub open spec fn lengthened(self, lesson_duration: i64) -> DailyHistoryView {
        DailyHistoryView {
            total_duration: (self.total_duration + lesson_duration) as i64,
            ..self
        }
    }
}

/// The statistics of one day: a snapshot of the collection and the lessons
/// and time spent.
#[derive(Debug, Clone, Copy, PartialEq, Eq)]
pub struct DailyHistoryItem {
    timestamp: i64,
    avg_stability: Option<u64>,
    avg_difficulty: Option<u64>,
    total_words: usize,
    new_words: usize,
    known_words: usize,
    in_progress_words: usize,
    high_difficulty_words: usize,
    lessons_completed: usize,
    total_duration: i64,
}

impl View for DailyHistoryItem {
    type V = DailyHistoryView;

    closed spec fn view(&self) -> DailyHistoryView {
        DailyHistoryView {
            timestamp: self.timestamp,
            avg_stability: self.avg_stability,
            avg_difficulty: self.avg_difficulty,
            total_words: self.total_words,
            new_words: self.new_words,
            known_words: self.known_words,
            in_progress_words: self.in_progress_words,
            high_difficulty_words: self.high_difficulty_words,
            lessons_completed: self.lessons_completed,
            total_duration: self.total_duration,
        }
    }
}

impl Default for DailyHistoryItem {
    fn default() -> (item: DailyHistoryItem)
        ensures
            item@ == DailyHistoryView::blank(item@.timestamp),
    {
        DailyHistoryItem::new()
    }
}

impl DailyHistoryItem {
    /// A blank item stamped with the present time.
    pub fn new() -> (item: DailyHistoryItem)
        ensures
            item@ == DailyHistoryView::blank(item@.timestamp),
    {
        DailyHistoryItem::new_at(now_millis())
    }

    /// A blank item stamped with `timestamp`.
    pub fn new_at(timestamp: i64) -> (item: DailyHistoryItem)
        ensures
            item@ == DailyHistoryView::blank(timestamp),
    {
        DailyHistoryItem {
            timestamp,
            avg_stability: None,
            avg_difficulty: None,
            total_words: 0,
            new_words: 0,
            known_words: 0,
            in_progress_words: 0,
            high_difficulty_words: 0,
            lessons_completed: 0,
            total_duration: 0,
        }
    }

    /// Puts a stored item back together.
    pub fn restore(
        timestamp: i64,
        avg_stability: Option<u64>,
        avg_difficulty: Option<u64>,
        total_words: usize,
        new_words: usize,
        known_words: usize,
        in_progress_words: usize,
        high_difficulty_words: usize,
        lessons_completed: usize,
        total_duration: i64,
    ) -> (item: DailyHistoryItem)
        ensures
            item@ == (DailyHistoryView {
                timestamp,
                avg_stability,
                avg_difficulty,
                total_words,
                new_words,
                known_words,
                in_progress_words,
                high_difficulty_words,
                lessons_completed,
                total_duration,
            }),
    {
        DailyHistoryItem {
            timestamp,
            avg_stability,
            avg_difficulty,
            total_words,
            new_words,
            known_words,
            in_progress_words,
            high_difficulty_words,
            lessons_completed,
            total_duration,
        }
    }

    pub fn timestamp(&self) -> (timestamp: i64)
        ensures
            timestamp == self@.timestamp,
    {
        self.timestamp
    }

    pub fn avg_stability(&self) -> (avg: Option<u64>)
        ensures
            avg == self@.avg_stability,
    {
        self.avg_stability
    }

    pub fn avg_difficulty(&self) -> (avg: Option<u64>)
        ensures
            avg == self@.avg_difficulty,
    {
        self.avg_difficulty
    }

    pub fn total_words(&self) -> (count: usize)
        ensures
            count == self@.total_words,
    {
        self.total_words
    }

    pub fn known_words(&self) -> (count: usize)
        ensures
            count == self@.known_words,
    {
        self.known_words
    }

    pub fn new_words(&self) -> (count: usize)
        ensures
            count == self@.new_words,
    {
        self.new_words
    }

    pub fn in_progress_words(&self) -> (count: usize)
        ensures
            count == self@.in_progress_words,
    {
        self.in_progress_words
    }

    pub fn high_difficulty_words(&self) -> (count: usize)
        ensures
            count == self@.high_difficulty_words,
    {
        self.high_difficulty_words
    }

    pub fn lessons_completed(&self) -> (count: usize)
        ensures
            count == self@.lessons_completed,
    {
        self.lessons_completed
    }

    pub fn total_duration(&self) -> (duration: i64)
        ensures
            duration == self@.total_duration,
    {
        self.total_duration
    }

    /// Replaces the aggregates with those of a new snapshot and counts one
    /// more completed lesson. From then on the item has averages. The
    /// accumulated duration is not touched.
    pub fn update(
        &mut self,
        avg_stability: u64,
        avg_difficulty: u64,
        total_words: usize,
        known_words: usize,
        new_words: usize,
        in_progress_words: usize,
        high_difficulty_words: usize,
    )
        requires
            old(self)@.lessons_completed < usize::MAX,
        ensures
            final(self)@ == old(self)@.updated(
                avg_stability,
                avg_difficulty,
                total_words,
                known_words,
                new_words,
                in_progress_words,
                high_difficulty_words,
            ),
    {
        self.avg_stability = Some(avg_stability);
        self.avg_difficulty = Some(avg_difficulty);
        self.total_words = total_words;
        self.known_words = known_words;
        self.new_words = new_words;
        self.in_progress_words = in_progress_words;
        self.high_difficulty_words = high_difficulty_words;
        self.lessons_completed = self.lessons_completed + 1;
    }

    /// Adds the length of one lesson to the accumulated duration.
    pub fn add_lesson_duration(&mut self, lesson_duration: i64)
        requires
            i64::MIN <= old(self)@.total_duration + lesson_duration <= i64::MAX,
        ensures
            final(self)@ == old(self)@.lengthened(lesson_duration),
    {
        self.total_duration = self.total_duration + lesson_duration;
    }
}

/// The length of a lesson accumulates whether or not a snapshot is taken in
/// between: `update` and `add_lesson_duration` commute.
pub proof fn law_duration_independent_of_update(
    item: DailyHistoryView,
    lesson_duration: i64,
    avg_stability: u64,
    avg_difficulty: u64,
    total_words: usize,
    known_words: usize,
    new_words: usize,
    in_progress_words: usize,
    high_difficulty_words: usize,
)
    ensures
        item.updated(
            avg_stability,
            avg_difficulty,
            total_words,
            known_words,
            new_words,
            in_progress_words,
            high_difficulty_words,
        ).lengthened(lesson_duration) == item.lengthened(lesson_duration).updated(
            avg_stability,
            avg_difficulty,
            total_words,
            known_words,
            new_words,
            in_progress_words,
            high_difficulty_words,
        ),
{
}

} // verus!
