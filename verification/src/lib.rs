//! Translation core for a MIDI-controller macro keypad.
//!
//! The library holds the verified logic of the pipeline: the note-to-key
//! mapping table with its two construction paths, the per-message dispatch
//! decision, the shutdown coordination state machine, and the error
//! taxonomy with its rendering. Device discovery, the platform MIDI
//! connection, synthetic-input injection and signal registration are
//! collaborators outside this crate; a thin binary drives them and feeds
//! this library plain values.

pub mod config;
pub mod dispatch;
pub mod errors;
pub mod mappings;
pub mod shutdown;
pub mod startup;
