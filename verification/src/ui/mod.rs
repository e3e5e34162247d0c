//! Presentation decisions: what the widgets show and how the views move.

pub mod application;
pub mod collapse_scheduler;
pub mod components;
