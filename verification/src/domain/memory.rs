//! The memory model: how well an item is known, and the record of its reviews.
//!
//! Quantities are fixed-point integers. A stability of `2500` is two and a
//! half days; a difficulty of `7250` is 7.25 on the scale from 1 to 10.
//! Instants and spans of time are counted in milliseconds, instants from the
//! Unix epoch.

use vstd::prelude::*;
use vstd::string::StringExecFns;
use crate::domain::error::KeikakuError;

verus! {

/// Thousandths in one unit of stability or difficulty.
pub const SCALE: u64 = 1000;

/// The easiest difficulty, 1.0.
pub const MIN_DIFFICULTY: u64 = 1000;

/// The hardest difficulty, 10.0.
pub const MAX_DIFFICULTY: u64 = 10000;

/// Estimated days until recall decays to the reference threshold, in
/// thousandths of a day. Always positive.
#[derive(Debug, Clone, Copy, PartialEq, Eq, PartialOrd, Ord, Hash, Structural)]
pub struct Stability {
    value: u64,
}

impl Stability {
    /// Whether `value` is an acceptable stability.
    pub open spec fn valid(value: u64) -> bool {
        value > 0
    }

    /// The thousandths of a day this stability stands for.
    pub closed spec fn value_spec(&self) -> u64 {
        self.value
    }

    /// Every stability that `new` has built.
    pub open spec fn wf(self) -> bool {
        Self::valid(self.value_spec())
    }

    /// Accepts a positive number of thousandths of a day and rejects zero.
    pub fn new(value: u64) -> (made: Result<Stability, KeikakuError>)
        ensures
            Self::valid(value) ==> (made matches Ok(s) && s.value_spec() == value && s.wf()),
            !Self::valid(value) ==> (made matches Err(KeikakuError::InvalidStability { reason })
                && reason@ == "stability must be positive"@),
    {
        if value == 0 {
            Err(
                KeikakuError::InvalidStability {
                    reason: String::from_str("stability must be positive"),
                },
            )
        } else {
            Ok(Stability { value })
        }
    }

    #[verifier::when_used_as_spec(value_spec)]
    pub fn value(&self) -> (value: u64)
        ensures
            value == self.value_spec(),
    {
        self.value
    }
}

/// Estimated intrinsic hardness of an item, in thousandths, from 1.0 to 10.0.
#[derive(Debug, Clone, Copy, PartialEq, Eq, PartialOrd, Ord, Hash, Structural)]
pub struct Difficulty {
    value: u64,
}

impl Difficulty {
    /// Whether `value` is an acceptable difficulty.
    pub open spec fn valid(value: u64) -> bool {
        MIN_DIFFICULTY <= value <= MAX_DIFFICULTY
    }

    /// The thousandths this difficulty stands for.
    pub closed spec fn value_spec(&self) -> u64 {
        self.value
    }

    /// Every difficulty that `new` has built.
    pub open spec fn wf(self) -> bool {
        Self::valid(self.value_spec())
    }

    /// Accepts a value from 1.0 to 10.0, both included, and rejects the rest.
    pub fn new(value: u64) -> (made: Result<Difficulty, KeikakuError>)
        ensures
            Self::valid(value) ==> (made matches Ok(d) && d.value_spec() == value && d.wf()),
            !Self::valid(value) ==> (made matches Err(KeikakuError::InvalidDifficulty { reason })
                && reason@ == "difficulty must lie between 1 and 10"@),
    {
        if value < MIN_DIFFICULTY || value > MAX_DIFFICULTY {
            Err(
                KeikakuError::InvalidDifficulty {
                    reason: String::from_str("difficulty must lie between 1 and 10"),
                },
            )
        } else {
            Ok(Difficulty { value })
        }
    }

    #[verifier::when_used_as_spec(value_spec)]
    pub fn value(&self) -> (value: u64)
        ensures
            value == self.value_spec(),
    {
        self.value
    }
}

/// How well the learner recalled an item.
#[derive(Debug, Clone, Copy, PartialEq, Eq, Structural)]
pub enum Rating {
    Again,
    Hard,
    Good,
    Easy,
}

impl Rating {
    /// The rating behind a button number: 1 is `Again`, 2 `Hard`, 3 `Good`,
    /// 4 `Easy`; any other number counts as `Good`.
    pub open spec fn of_number(number: i32) -> Rating {
        if number == 1 {
            Rating::Again
        } else if number == 2 {
            Rating::Hard
        } else if number == 4 {
            Rating::Easy
        } else {
            Rating::Good
        }
    }

    pub fn from_number(number: i32) -> (rating: Rating)
        ensures
            rating == Self::of_number(number),
    {
        match number {
            1 => Rating::Again,
            2 => Rating::Hard,
            4 => Rating::Easy,
            _ => Rating::Good,
        }
    }
}

/// The current belief about one item: its parameters and when it is next due.
#[derive(Debug, Clone, Copy, PartialEq, Eq, Structural)]
pub struct MemoryState {
    pub stability: Stability,
    pub difficulty: Difficulty,
    pub due_at: i64,
}

impl MemoryState {
    pub open spec fn wf(self) -> bool {
        self.stability.wf() && self.difficulty.wf()
    }

    pub fn new(stability: Stability, difficulty: Difficulty, due_at: i64) -> (state: MemoryState)
        ensures
            state == (MemoryState { stability, difficulty, due_at }),
    {
        MemoryState { stability, difficulty, due_at }
    }

    pub fn stability(&self) -> (stability: Stability)
        ensures
            stability == self.stability,
    {
        self.stability
    }

    pub fn difficulty(&self) -> (difficulty: Difficulty)
        ensures
            difficulty == self.difficulty,
    {
        self.difficulty
    }

    pub fn due_at(&self) -> (due_at: i64)
        ensures
            due_at == self.due_at,
    {
        self.due_at
    }

    /// Whether the item should be shown at the instant `now`.
    pub open spec fn due_spec(&self, now: i64) -> bool {
        self.due_at <= now
    }

    #[verifier::when_used_as_spec(due_spec)]
    pub fn is_due(&self, now: i64) -> (due: bool)
        ensures
            due == self.due_spec(now),
    {
        self.due_at <= now
    }
}

/// One exposure: when it happened, how it went, the interval that was
/// recommended and the state it led to.
#[derive(Debug, Clone, Copy, PartialEq, Eq, Structural)]
pub struct ReviewLog {
    pub timestamp: i64,
    pub rating: Rating,
    pub interval: i64,
    pub resulting_state: MemoryState,
}

impl ReviewLog {
    /// The log of a review made at `timestamp`.
    pub open spec fn at(timestamp: i64, rating: Rating, interval: i64, resulting_state: MemoryState)
        -> ReviewLog {
        ReviewLog { timestamp, rating, interval, resulting_state }
    }

    pub fn new(timestamp: i64, rating: Rating, interval: i64, resulting_state: MemoryState) -> (log:
        ReviewLog)
        ensures
            log == (ReviewLog { timestamp, rating, interval, resulting_state }),
    {
        ReviewLog { timestamp, rating, interval, resulting_state }
    }

    pub fn timestamp(&self) -> (timestamp: i64)
        ensures
            timestamp == self.timestamp,
    {
        self.timestamp
    }

    pub fn rating(&self) -> (rating: Rating)
        ensures
            rating == self.rating,
    {
        self.rating
    }

    pub fn interval(&self) -> (interval: i64)
        ensures
            interval == self.interval,
    {
        self.interval
    }

    pub fn resulting_state(&self) -> (state: MemoryState)
        ensures
            state == self.resulting_state,
    {
        self.resulting_state
    }
}

/// What a memory history holds: its reviews, oldest first, and the current
/// state, if the item has ever been reviewed.
pub struct MemoryHistoryView {
    pub logs: Seq<ReviewLog>,
    pub current: Option<MemoryState>,
}

impl MemoryHistoryView {
    /// A history without reviews has no state; any other has the state its
    /// last review led to.
    pub open spec fn consistent(self) -> bool {
        if self.logs.len() == 0 {
            self.current is None
        } else {
            self.current == Some(self.logs.last().resulting_state)
        }
    }

    /// No review is older than one before it.
    pub open spec fn chronological(self) -> bool {
        forall|i: int, j: int|
            0 <= i <= j < self.logs.len() ==> self.logs[i].timestamp <= self.logs[j].timestamp
    }

    /// The item has never been reviewed.
    pub open spec fn is_new(self) -> bool {
        self.logs.len() == 0
    }

    /// The history after one more review.
    pub open spec fn reviewed(self, state: MemoryState, log: ReviewLog) -> MemoryHistoryView {
        MemoryHistoryView { logs: self.logs.push(log), current: Some(state) }
    }

    /// Whether `log` may follow the reviews recorded so far without breaking
    /// their order in time.
    pub open spec fn admits(self, log: ReviewLog) -> bool {
        self.logs.len() > 0 ==> self.logs.last().timestamp <= log.timestamp
    }
}

/// The reviews of one study card, oldest first, and its current state.
#[derive(Debug, PartialEq, Eq)]
pub struct MemoryHistory {
    logs: Vec<ReviewLog>,
    current: Option<MemoryState>,
}

impl View for MemoryHistory {
    type V = MemoryHistoryView;

    closed spec fn view(&self) -> MemoryHistoryView {
        MemoryHistoryView { logs: self.logs@, current: self.current }
    }
}

impl Default for MemoryHistory {
    /// The history of an item that was never studied.
    fn default() -> (history: MemoryHistory)
        ensures
            history@.logs == Seq::<ReviewLog>::empty(),
            history@.current is None,
    {
        MemoryHistory { logs: Vec::new(), current: None }
    }
}

impl Clone for MemoryHistory {
    fn clone(&self) -> (copy: MemoryHistory)
        ensures
            copy@ == self@,
    {
        let mut logs: Vec<ReviewLog> = Vec::new();
        let mut i: usize = 0;
        while i < self.logs.len()
            invariant
                i <= self.logs.len(),
                logs@ == self.logs@.take(i as int),
            decreases self.logs.len() - i,
        {
            logs.push(self.logs[i]);
            i = i + 1;
        }
        assert(self.logs@.take(self.logs.len() as int) == self.logs@);
        MemoryHistory { logs, current: self.current }
    }
}

impl MemoryHistory {
    /// The history of an item that was never studied.
    pub fn new() -> (history: MemoryHistory)
        ensures
            history@.logs == Seq::<ReviewLog>::empty(),
            history@.current is None,
            history@.consistent(),
            history@.chronological(),
    {
        MemoryHistory { logs: Vec::new(), current: None }
    }

    /// The history made of `logs`, oldest first; its state is the one the
    /// last of them led to.
    pub fn from_logs(logs: Vec<ReviewLog>) -> (history: MemoryHistory)
        ensures
            history@.logs == logs@,
            history@.consistent(),
    {
        let n = logs.len();
        let current = if n == 0 {
            None
        } else {
            Some(logs[n - 1].resulting_state())
        };
        MemoryHistory { logs, current }
    }

    /// Whether the state is the one the last review led to, and there is
    /// none if there was no review.
    pub fn is_consistent(&self) -> (consistent: bool)
        ensures
            consistent == self@.consistent(),
    {
        let n = self.logs.len();
        match self.current {
            None => n == 0,
            Some(state) => n > 0 && state == self.logs[n - 1].resulting_state(),
        }
    }

    /// Whether no review is older than one before it.
    pub fn is_chronological(&self) -> (ordered: bool)
        ensures
            ordered == self@.chronological(),
    {
        let n = self.logs.len();
        if n == 0 {
            return true;
        }
        let mut i: usize = 1;
        while i < n
            invariant
                1 <= i <= n,
                n == self.logs.len(),
                forall|a: int, b: int|
                    0 <= a <= b < i ==> self.logs[a].timestamp <= self.logs[b].timestamp,
            decreases n - i,
        {
            if self.logs[i - 1].timestamp() > self.logs[i].timestamp() {
                return false;
            }
            assert forall|a: int, b: int| 0 <= a <= b < i + 1 implies self.logs[a].timestamp
                <= self.logs[b].timestamp by {
                if b == i && a < i {
                    assert(self.logs[a].timestamp <= self.logs[i - 1].timestamp);
                }
            }
            i = i + 1;
        }
        true
    }

    /// Records one review: `log` joins the end of the sequence and
    /// `new_state` replaces the current state. Nothing is validated.
    pub(crate) fn add_review(&mut self, new_state: MemoryState, log: ReviewLog)
        ensures
            final(self)@ == old(self)@.reviewed(new_state, log),
    {
        self.logs.push(log);
        self.current = Some(new_state);
    }

    /// The state after the last review; `None` for an item never reviewed.
    pub fn current_state(&self) -> (state: Option<MemoryState>)
        ensures
            state == self@.current,
    {
        self.current
    }

    /// All reviews, oldest first.
    pub fn logs(&self) -> (logs: &Vec<ReviewLog>)
        ensures
            logs@ == self@.logs,
    {
        &self.logs
    }

    /// The number of reviews recorded.
    pub fn len(&self) -> (len: usize)
        ensures
            len == self@.logs.len(),
    {
        self.logs.len()
    }

    /// The most recent review, if there is one.
    pub fn last_log(&self) -> (log: Option<ReviewLog>)
        ensures
            self@.logs.len() == 0 ==> log is None,
            self@.logs.len() > 0 ==> log == Some(self@.logs.last()),
    {
        let n = self.logs.len();
        if n == 0 {
            None
        } else {
            Some(self.logs[n - 1])
        }
    }

    /// Whether the item has never been reviewed.
    pub fn is_new(&self) -> (fresh: bool)
        ensures
            fresh == self@.is_new(),
    {
        self.logs.len() == 0
    }
}

/// Recording a review whose state is the one it installs keeps a history
/// consistent, and keeps it in order of time if the review is not older than
/// the last one.
pub proof fn law_review_keeps_history(history: MemoryHistoryView, log: ReviewLog)
    requires
        history.consistent(),
    ensures
        history.reviewed(log.resulting_state, log).consistent(),
        history.reviewed(log.resulting_state, log).logs.len() == history.logs.len() + 1,
        history.reviewed(log.resulting_state, log).current == Some(
            history.reviewed(log.resulting_state, log).logs.last().resulting_state,
        ),
        history.chronological() && history.admits(log) ==> history.reviewed(
            log.resulting_state,
            log,
        ).chronological(),
{
    let after = history.reviewed(log.resulting_state, log);
    if history.chronological() && history.admits(log) {
        assert forall|i: int, j: int| 0 <= i <= j < after.logs.len() implies after.logs[i].timestamp
            <= after.logs[j].timestamp by {
            if j < history.logs.len() {
            } else if i < history.logs.len() {
                assert(history.logs[i].timestamp <= history.logs.last().timestamp);
            }
        }
    }
}

} // verus!
