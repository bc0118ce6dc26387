//! Cards, the history of their study, and the set that owns them.

pub mod card;
pub mod daily_history;
pub mod knowledge_set;
pub mod laws;
pub mod statistics;
