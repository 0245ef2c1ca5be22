//! Core of a Vietnamese input method: the per-keystroke transliteration
//! state machine, modifier and hotkey tracking, keyboard-layout resolution,
//! and the dispatch logic that decides, for every observed key event,
//! whether to let it through or to replace already-rendered text.
//!
//! Platform event taps, synthetic-event injection and configuration
//! persistence live outside this crate; everything here is plain logic on
//! plain values.

pub mod types;
pub mod engine;
pub mod keys;
pub mod text;
pub mod processor;
pub mod modifier;
pub mod orchestrator;
pub mod config;
pub mod error;
pub mod layout;
pub mod platform;
