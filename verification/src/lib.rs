//! Core of a push-to-talk dictation tool. A global hotkey starts and stops
//! a recording; the samples are normalised, collected by a polling capture
//! loop, encoded as 16-bit PCM and dispatched to a transcription service,
//! and the text that comes back is typed at the cursor.
//!
//! This crate holds the decisions of that pipeline, with machine-checked
//! contracts. Devices, clocks, sockets and windows belong to its caller,
//! who tells it what happened and is told what to do next.

/// The capture loop and the session it produces.
pub mod capture;
/// The queue between the audio callback and the capture loop.
pub mod channel;
/// Addresses of the transcription service and the reading of its answers.
pub mod client;
/// Reading the pointer position a scripting host prints.
pub mod cursor;
/// The failures of the pipeline.
pub mod error;
/// Escaping text for the scripting hosts that type it.
pub mod injection;
/// The recording state machine and the pipeline behind a stop.
pub mod machine;
/// Canonical samples and their conversions.
pub mod sample;
/// The spelling of the hotkey.
pub mod shortcut;
/// Blank texts, trimming and searching.
pub mod text;
/// The entries of the tray menu.
pub mod tray;
/// Settings, pointer position and the stop flag.
pub mod types;
/// The 16-bit PCM container.
pub mod wav;
