//! Verified core of a push-to-talk dictation tool: the recording state machine,
//! the hotkey plan, the settings model, the local model catalogue, the WAV
//! encoder used for cloud transcription and the transcription protocol logic.

pub mod text;
pub mod state;
pub mod hotkeys;
pub mod settings;
pub mod models;
pub mod audio;
pub mod wav;
pub mod transcription;
