//! Dictation lifecycle controller and text-refinement pipeline.
//!
//! The crate guards a single capture session behind a small state machine,
//! rewrites spoken symbol names into literal glyphs, plans AI refinement
//! requests, and validates untrusted model output with a rule-based fallback.

pub mod hud;
pub mod orchestrate;
pub mod paste;
pub mod prefs;
pub mod prompt;
pub mod session;
pub mod symbols;
pub mod text;
pub mod validate;
