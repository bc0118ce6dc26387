//! Spaced-repetition core for studying Japanese: memory parameters, review
//! history, study cards and the knowledge set that schedules them.

pub mod application;
pub mod domain;
pub mod presentation;
