//! Decisions of the custom widgets.
pub mod event_catcher;
