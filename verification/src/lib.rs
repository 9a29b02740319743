//! Core of a real-time audio capture/playback engine: negotiation of an
//! operating configuration (sample rate, channel count, buffer size) against
//! device-reported capability ranges, engine settings that keep the input and
//! output directions mutually consistent, and per-track record/playback
//! buffers driven from a real-time callback.
//!
//! Device enumeration, stream lifecycle and file I/O are external
//! collaborators; this crate works on plain snapshots of what they report.

pub mod config;
pub mod negotiate;
pub mod engine;
pub mod settings;
pub mod track;
