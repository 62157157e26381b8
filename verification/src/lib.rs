//! A signature-based detection and remediation engine: it matches scanned
//! file paths and running processes against an immutable store of known-bad
//! filenames and content digests, decides every deletion and termination,
//! and keeps the run's append-only log. All host work — enumerating volumes
//! and processes, reading files, deleting, terminating — happens outside;
//! the engine takes plain values and says what to do and what to record.

pub mod text;
pub mod sig;
pub mod path;
pub mod hash;
pub mod scan;
pub mod engine;
