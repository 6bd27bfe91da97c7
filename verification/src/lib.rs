//! A self-update orchestrator for a desktop application: it decides whether a
//! newer build is available, validates a retrieved update payload, plans the
//! extraction of a bundled payload, and emits the detached helper script that
//! swaps the installed executable after the running process exits.
//!
//! All decision logic lives here and is verified; the surrounding process
//! (file and network retrieval, spawning the helper) hands plain values in and
//! takes plain values back.

pub mod archive;
pub mod artifact;
pub mod controller;
pub mod errors;
pub mod locator;
pub mod swap;
pub mod text;
pub mod version;
