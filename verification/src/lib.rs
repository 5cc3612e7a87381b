//! Decoder for a USB jog/shuttle input device.
//!
//! The device delivers fixed-layout binary reports. This crate parses such a
//! report, differences it against the previously seen report, and emits the
//! discrete events (jog deflection, shuttle-ring rotation, button edges) that
//! the difference implies, together with the follow-up actions a host would
//! perform for each event. All surrounding OS plumbing (device discovery, raw
//! input registration, message delivery) lives outside this crate.

pub mod decoder;
pub mod policy;
pub mod report;
