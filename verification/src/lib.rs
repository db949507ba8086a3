//! Translation engine turning MIDI note events into synthetic keyboard
//! key-press and key-release events.
//!
//! The crate covers the event-translation core: resolving a MIDI note to a
//! logical key through a configurable key map and layout, the velocity-driven
//! shift-modifier state machine, and the ordered, timestamped sequencing of
//! output events. Device I/O (the MIDI source and the virtual keyboard sink)
//! lives outside this crate and exchanges plain values with it.

pub mod bindings;
pub mod engine;
pub mod keymap;
pub mod keys;
pub mod layout;
pub mod midi;
pub mod retry;
pub mod sequencer;
pub mod shift;
