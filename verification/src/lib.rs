//! Dikta's dictation logic, verified: the model catalog and what each model
//! needs on disk and in memory, the settings record, the silence hangover of
//! auto-stop, the recording session and shortcut decisions, text delivery,
//! the tray menu, and what the history store computes.
use vstd::prelude::*;

pub mod text;
pub mod models;
pub mod asr;
pub mod settings;
pub mod vad;
pub mod state;
pub mod hotkeys;
pub mod paste;
pub mod db;
pub mod tray;

verus! {
} // verus!
