//! Protocols of audio and music units on IEEE 1394 bus.

pub mod bebob;
pub mod dice;
pub mod float32;
pub mod motu;
pub mod rme;
pub mod tascam;
