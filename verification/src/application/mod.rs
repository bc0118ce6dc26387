//! What the application does with the domain: look-ups in the reference and
//! the bookkeeping of imports.

pub mod import;
pub mod use_cases;
