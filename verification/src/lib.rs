//! Core of a voice-dictation daemon: audio segmentation, transcription-stage
//! decisions, session coordination, and transcript retention.
//!
//! Audio is modelled as 16-bit PCM samples at a fixed mono sample rate.  The
//! capture device, the speech-probability model, the inference engine and the
//! desktop integration are collaborators that live outside this crate; the
//! state machines that decide where utterances begin and end, what is typed
//! or persisted, and how a recording session starts, stops and drains are
//! verified here.

pub mod audio_duck;
pub mod config;
pub mod coordinator;
pub mod hotkey;
pub mod text;
pub mod transcribe;
pub mod transcript;
pub mod tray;
pub mod vad;

pub use config::RecordingState;
