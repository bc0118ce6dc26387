use keikaku::domain::error::KeikakuError;
use keikaku::domain::memory::{
    Difficulty, MemoryHistory, MemoryState, Rating, ReviewLog, Stability, MAX_DIFFICULTY,
    MIN_DIFFICULTY, SCALE,
};

fn state(stability: u64, difficulty: u64, due_at: i64) -> MemoryState {
    MemoryState::new(
        Stability::new(stability).unwrap(),
        Difficulty::new(difficulty).unwrap(),
        due_at,
    )
}

#[test]
fn stability_rejects_zero() {
    assert!(matches!(Stability::new(0), Err(KeikakuError::InvalidStability { .. })));
    assert_eq!(Stability::new(1).unwrap().value(), 1);
    assert_eq!(Stability::new(2500).unwrap().value(), 2500);
    assert_eq!(Stability::new(u64::MAX).unwrap().value(), u64::MAX);
}

#[test]
fn difficulty_accepts_one_to_ten() {
    assert_eq!(SCALE, 1000);
    assert_eq!(MIN_DIFFICULTY, 1000);
    assert_eq!(MAX_DIFFICULTY, 10000);
    assert!(matches!(Difficulty::new(0), Err(KeikakuError::InvalidDifficulty { .. })));
    assert!(matches!(Difficulty::new(999), Err(KeikakuError::InvalidDifficulty { .. })));
    assert!(matches!(Difficulty::new(10001), Err(KeikakuError::InvalidDifficulty { .. })));
    assert_eq!(Difficulty::new(1000).unwrap().value(), 1000);
    assert_eq!(Difficulty::new(7250).unwrap().value(), 7250);
    assert_eq!(Difficulty::new(10000).unwrap().value(), 10000);
}

#[test]
fn parameters_compare_by_value() {
    assert_eq!(Stability::new(5).unwrap(), Stability::new(5).unwrap());
    assert_ne!(Stability::new(5).unwrap(), Stability::new(6).unwrap());
    assert_eq!(Difficulty::new(5000).unwrap(), Difficulty::new(5000).unwrap());
}

#[test]
fn rating_of_a_button_number() {
    assert_eq!(Rating::from_number(1), Rating::Again);
    assert_eq!(Rating::from_number(2), Rating::Hard);
    assert_eq!(Rating::from_number(3), Rating::Good);
    assert_eq!(Rating::from_number(4), Rating::Easy);
    assert_eq!(Rating::from_number(0), Rating::Good);
    assert_eq!(Rating::from_number(-1), Rating::Good);
    assert_eq!(Rating::from_number(5), Rating::Good);
}

#[test]
fn memory_state_is_due_from_its_due_instant_on() {
    let s = state(1_000, 1_000, 100);
    assert_eq!(s.stability().value(), 1_000);
    assert_eq!(s.difficulty().value(), 1_000);
    assert_eq!(s.due_at(), 100);
    assert!(!s.is_due(99));
    assert!(s.is_due(100));
    assert!(s.is_due(101));
}

#[test]
fn review_log_keeps_what_it_was_given() {
    let s = state(2_000, 3_000, 50);
    let log = ReviewLog::new(7, Rating::Easy, 86_400_000, s);
    assert_eq!(log.timestamp(), 7);
    assert_eq!(log.rating(), Rating::Easy);
    assert_eq!(log.interval(), 86_400_000);
    assert_eq!(log.resulting_state(), s);
}

#[test]
fn default_history_is_new() {
    let history = MemoryHistory::default();
    assert!(history.is_new());
    assert_eq!(history.len(), 0);
    assert_eq!(history.current_state(), None);
    assert_eq!(history.last_log(), None);
    assert!(history.logs().is_empty());
    assert!(history.is_consistent());
    assert!(history.is_chronological());
    assert_eq!(history, MemoryHistory::new());
}

#[test]
fn history_from_logs_takes_the_state_of_the_last() {
    let first = ReviewLog::new(1, Rating::Again, 10, state(1_000, 9_000, 11));
    let second = ReviewLog::new(2, Rating::Good, 20, state(2_000, 8_000, 22));
    let history = MemoryHistory::from_logs(vec![first, second]);
    assert_eq!(history.len(), 2);
    assert_eq!(history.current_state(), Some(state(2_000, 8_000, 22)));
    assert_eq!(history.last_log(), Some(second));
    assert_eq!(history.logs(), &vec![first, second]);
    assert!(history.is_consistent());
    assert!(history.is_chronological());
    assert!(!history.is_new());
    assert_eq!(history.clone(), history);
}

#[test]
fn history_out_of_order_is_told_apart() {
    let late = ReviewLog::new(9, Rating::Again, 10, state(1_000, 9_000, 11));
    let early = ReviewLog::new(2, Rating::Good, 20, state(2_000, 8_000, 22));
    assert!(!MemoryHistory::from_logs(vec![late, early]).is_chronological());
    assert!(MemoryHistory::from_logs(vec![early, late]).is_chronological());
    assert!(MemoryHistory::from_logs(vec![early, early]).is_chronological());
    assert!(MemoryHistory::from_logs(vec![early]).is_chronological());
}

#[test]
fn parameters_are_ordered_by_value() {
    assert!(Stability::new(1).unwrap() < Stability::new(2).unwrap());
    assert!(Difficulty::new(9_999).unwrap() < Difficulty::new(10_000).unwrap());
    assert_eq!(
        Stability::new(7).unwrap().max(Stability::new(3).unwrap()),
        Stability::new(7).unwrap()
    );
}

#[test]
fn rejections_say_why() {
    assert_eq!(
        Stability::new(0),
        Err(KeikakuError::InvalidStability { reason: "stability must be positive".to_string() })
    );
    assert_eq!(
        Difficulty::new(0),
        Err(KeikakuError::InvalidDifficulty {
            reason: "difficulty must lie between 1 and 10".to_string()
        })
    );
}
