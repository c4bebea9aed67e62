//! Decision logic of a push-to-talk dictation tool: hotkey recognition,
//! the recording session, transcript post-processing, clean-up planning,
//! paste scripting and installation planning.

pub mod config;
pub mod text;
pub mod asr;
pub mod hotkey;
pub mod session;
pub mod paths;
pub mod order;
pub mod catalog;
pub mod setup;
pub mod cleanup;
pub mod paste;
pub mod pipeline;
pub mod logger;
pub mod overlay;
pub mod recording;
pub mod archive;
pub mod download;
pub mod processing;
pub mod autostart;
