//! Core of an interactive two-pane terminal directory browser.
//!
//! The library owns the interaction state machine: how keyboard input,
//! modal path editing, fuzzy-search replies and directory listings combine
//! into one consistent, redrawable state. Terminal setup, event polling,
//! subprocess handling and widget drawing live outside the library and talk
//! to it through plain values: input events in, requested effects and frame
//! snapshots out.

pub mod laws;
pub mod listing;
pub mod render;
pub mod state;
pub mod transition;
mod text;
