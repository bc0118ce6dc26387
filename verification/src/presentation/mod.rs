//! What the screens show: cards as plain data, and the figures derived from
//! them.

pub mod card_data;
pub mod services;
pub mod style;
