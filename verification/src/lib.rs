//! Zecho: voice transcriptions, cleaned up by a local language model.
//!
//! The library holds what the application decides and computes; the application
//! around it records, transcribes, runs the model and talks to the desktop.

pub mod cleanup;
pub mod generation;
pub mod hotkey;
pub mod markers;
pub mod models;
pub mod placement;
pub mod recording;
pub mod settings;
pub mod setup;
pub mod text;
pub mod tray;
pub mod updates;
pub mod wire;
