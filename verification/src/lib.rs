//! Core of a step-sequencer (tracker): the musical data model, the playback
//! state machine, the debounce/timer scheduler, input dispatch, screen
//! navigation, and the versioned binary persistence codec.
//!
//! Everything here is pure state-machine logic: the host (frame driver,
//! gamepad source, tone sink, storage) lives outside and exchanges plain
//! values with this crate.

pub mod channel;
pub mod engine;
pub mod notes;
pub mod inputs;
pub mod instrument;
pub mod navigation;
pub mod pattern;
pub mod screen;
pub mod song;
pub mod timers;
pub mod tracker;
pub mod wtime;
