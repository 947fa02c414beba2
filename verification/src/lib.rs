//! Mirrors the operating system's default audio-output volume and mute state
//! onto a strip of an external mixing console.
//!
//! The library holds the decision logic of that pipeline: the volume-to-gain
//! mapping, the retry-once console client, the event coordinator and the
//! process supervisor. Levels and gains are carried as fixed-point integers
//! in ten-thousandths, so `10000` stands for a level of `1.0` and `-174000`
//! for a gain of `-17.4` dB.

pub mod adapters;
pub mod console;
pub mod coordinator;
pub mod mapping;
pub mod queue;
pub mod supervisor;
