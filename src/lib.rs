//! Change-detecting track monitor: turns media-player metadata into a track
//! identity string, decides when a new identity is worth publishing, and
//! drives the polling loop as an event-driven state machine.
pub mod detect;
pub mod scheduler;
pub mod track;
