//! Voxta's dictation logic: transcript clean-up, voice commands, shortcut
//! handling, the recording state machine, live-preview chunking and model
//! bookkeeping, each with its contract.
use vstd::prelude::*;

pub mod ai_cleanup;
pub mod audio;
pub mod config;
pub mod error;
pub mod focus;
pub mod hotkeys;
pub mod models;
pub mod permissions;
pub mod platform;
pub mod runtime;
pub mod state;
pub mod streaming;
pub mod text;
pub mod text_injection;
pub mod transcription;
pub mod voice_commands;

verus! {
} // verus!
