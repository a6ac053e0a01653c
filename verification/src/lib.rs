//! A programmable MIDI router: the event model and its binary codec, the
//! cycling iterator, the tempo subdivision counter, the transform catalog and
//! the engine that runs a chain of transforms over incoming events.
//!
//! Everything here is plain computation over plain values. Reading MIDI
//! devices, timers and queues is left to the program around the library,
//! which hands events in and carries out the actions it gets back.

pub mod app;
pub mod iter_utils;
pub mod midi_event;
pub mod pipeline;
pub mod scheduler;
pub mod stage;
pub mod tempo;
pub mod transforms;
