//! Supervision and progress reporting for an external media-transcoding process.
//!
//! The library is pure: it builds argument vectors, writes concat manifests as
//! bytes, parses the process's progress stream and classifies its exit. Spawning
//! the process, file I/O and event delivery are left to the host application.

pub mod progress;
pub mod error;
pub mod text;
pub mod supervisor;
pub mod args;
pub mod manifest;
pub mod ops;
