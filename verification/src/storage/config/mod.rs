//! Settings persistence helpers.

pub mod corrupt_recovery;
