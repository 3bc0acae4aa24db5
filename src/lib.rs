//! Version-gated purge of embedded browser-engine caches at application
//! startup.
//!
//! The decisions are a verified state machine ([`guard::Guard`]) that asks
//! its host to perform one filesystem operation at a time and is told what
//! came of it. [`model`] describes the disk those operations act on and
//! proves what a whole run achieves.

pub mod greeting;
pub mod guard;
pub mod model;
pub mod version;
