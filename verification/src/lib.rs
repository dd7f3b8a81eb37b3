//! An in-process logging engine: structured records from many producers are
//! case-normalised, formatted deterministically, queued for a background
//! writer, persisted to a size-rotated file, and optionally raise a
//! synchronous alert when a configured severity is observed.
//!
//! The engine itself is pure state: it decides what line to write, into which
//! file, when to rotate, and when a trigger fires. The surrounding process
//! performs the actual console, file and clock operations and feeds their
//! outcomes back in.

pub mod engine;
pub mod record;
pub mod rotation;
pub mod text;
