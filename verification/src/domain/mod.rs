//! The domain model: pure data and the rules that govern it.

pub mod clock;
pub mod dictionary;
pub mod identity;
pub mod japanese;
pub mod error;
pub mod memory;
pub mod value_objects;
pub mod well_known_set;
pub mod knowledge;
pub mod settings;
pub mod user;
