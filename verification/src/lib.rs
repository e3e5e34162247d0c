//! Library model and decision logic of a hi-fi music player.

pub mod storage;
pub mod text;
pub mod ui;
