//! Crash-capture bridge for Linux minidumps.
//!
//! The crate sits between a host process that decides when to capture a crash
//! and the dump-generation engine (the `minidump-writer` crate) that walks the
//! target process and encodes the minidump. The bridge validates the
//! destination path's encoding, invokes the engine in one of two modes (live
//! process, or with a pre-captured crash context), and reports the outcome as
//! the produced artifact bytes or a human-readable diagnostic.

pub mod capture;
pub mod context;
pub mod digits;
pub mod engine;
pub mod messages;
pub mod path_encoding;
