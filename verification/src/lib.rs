//! Command-protocol engine for a 122x250 bi-level e-paper panel.
//!
//! The engine performs no I/O. Every operation appends the pin and bus
//! operations it calls for to a [`interface::Transcript`]; whoever owns the
//! hardware replays the transcript on it, in order, and stops at the first
//! fault.

pub mod color;
pub mod command;
pub mod driver;
pub mod geometry;
pub mod interface;
pub mod protocol;
pub mod waveform;
